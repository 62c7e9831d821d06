use vstd::prelude::*;

use crate::error::{ServiceError, ServiceErrorView};
use crate::models::{User, UserKey, UserSession, UserSessionView, UserView};
use crate::text::dec_seq;

verus! {

/// Lookup of user records; the store's obligations are stated against its
/// two lookup tables.
pub trait UserRepositoryTrait: Sized {
    /// The user stored under `email`, if any.
    spec fn user_by_email(&self, email: Seq<char>) -> Option<UserView>;

    /// The user stored under `id`, if any.
    spec fn user_by_id(&self, id: u64) -> Option<UserView>;

    /// The user record for `email`, or `NotFound` carrying the email.
    fn find_by_email(&self, email: &str) -> (r: Result<User, ServiceError>)
        ensures
            (match r {
                Ok(u) => self.user_by_email(email@) == Some(u@),
                Err(e) => self.user_by_email(email@) is None && e@ == ServiceErrorView::NotFound(
                    email@,
                ),
            }),
    ;

    /// The stored password hash for `email`, or `NotFound` carrying the
    /// email.
    fn find_password_by_email(&self, email: &str) -> (r: Result<String, ServiceError>)
        ensures
            (match r {
                Ok(p) => self.user_by_email(email@) matches Some(u) && p@ == u.password_hash,
                Err(e) => self.user_by_email(email@) is None && e@ == ServiceErrorView::NotFound(
                    email@,
                ),
            }),
    ;

    /// The user record for `id`, or `NotFound` carrying the id in decimal.
    fn find_by_id(&self, id: u64) -> (r: Result<User, ServiceError>)
        ensures
            (match r {
                Ok(u) => self.user_by_id(id) == Some(u@),
                Err(e) => self.user_by_id(id) is None && e@ == ServiceErrorView::NotFound(
                    dec_seq(id as nat),
                ),
            }),
    ;
}

/// Lookup of a user's public key.
pub trait UserKeyRepositoryTrait: Sized {
    /// The public key stored for `user_id`, if any.
    spec fn key_by_user_id(&self, user_id: u64) -> Option<Seq<char>>;

    /// The key record for `user_id`, or `NotFound` carrying the id in
    /// decimal.
    fn find_by_user_id(&self, user_id: u64) -> (r: Result<UserKey, ServiceError>)
        ensures
            (match r {
                Ok(k) => self.key_by_user_id(user_id) == Some(k.public_key@) && k.user_id
                    == user_id,
                Err(e) => self.key_by_user_id(user_id) is None && e@ == ServiceErrorView::NotFound(
                    dec_seq(user_id as nat),
                ),
            }),
    ;
}

/// Persistence of serialized sign-up tokens.
pub trait SignUpTokenRepositoryTrait: Sized {
    /// The serialized tokens persisted so far, oldest first.
    spec fn saved(&self) -> Seq<Seq<char>>;

    /// Persists one serialized token; on success the token is appended and
    /// the success indicator is true, otherwise the store is unchanged.
    fn save(&mut self, serialized_token: &str) -> (r: Result<bool, ServiceError>)
        ensures
            (match r {
                Ok(b) => b && final(self).saved() == old(self).saved().push(serialized_token@),
                Err(e) => e@ == ServiceErrorView::StoreFailure && final(self).saved() == old(
                    self,
                ).saved(),
            }),
    ;
}

/// Persistence of serialized password-reset tokens, scoped to one user id
/// at construction.
pub trait PasswordTokenRepositoryTrait: Sized {
    /// The serialized tokens persisted so far, oldest first.
    spec fn saved(&self) -> Seq<Seq<char>>;

    /// Persists one serialized token; on success the token is appended and
    /// the success indicator is true, otherwise the store is unchanged.
    fn save(&mut self, serialized_token: &str) -> (r: Result<bool, ServiceError>)
        ensures
            (match r {
                Ok(b) => b && final(self).saved() == old(self).saved().push(serialized_token@),
                Err(e) => e@ == ServiceErrorView::StoreFailure && final(self).saved() == old(
                    self,
                ).saved(),
            }),
    ;
}

/// One message handed to an email sender.
#[verifier::ext_equal]
pub struct EmailView {
    pub to: Seq<char>,
    pub subject: Seq<char>,
    pub body: Seq<char>,
}

/// Best-effort notification delivery.
pub trait EmailSenderTrait: Sized {
    /// The messages delivered so far, oldest first.
    spec fn sent(&self) -> Seq<EmailView>;

    /// Attempts to deliver one message; on success it is appended to the
    /// delivered messages, otherwise they are unchanged.
    fn send(&mut self, to: &str, subject: &str, body: &str) -> (r: Result<bool, ServiceError>)
        ensures
            (match r {
                Ok(b) => b && final(self).sent() == old(self).sent().push(
                    (EmailView { to: to@, subject: subject@, body: body@ }),
                ),
                Err(e) => final(self).sent() == old(self).sent(),
            }),
    ;
}

/// Read and write of the caller's session state.
pub trait SessionContextTrait: Sized {
    /// The session currently held, if any.
    spec fn session(&self) -> Option<UserSessionView>;

    /// A copy of the held session, if one is present.
    fn get_session(&self) -> (r: Option<UserSession>)
        ensures
            (match r {
                Some(s) => self.session() == Some(s@),
                None => self.session() is None,
            }),
    ;

    /// Replaces the held session with one built from the given fields.
    fn set_session(
        &mut self,
        user_id: u64,
        user_email: &str,
        user_name: &str,
        user_public_key: &str,
        user_avatar_url: &Option<String>,
    )
        ensures
            final(self).session() == Some(
                (UserSessionView {
                    user_id,
                    user_email: user_email@,
                    user_name: user_name@,
                    user_public_key: user_public_key@,
                    user_avatar_url: user_avatar_url.deep_view(),
                }),
            ),
    ;
}

} // verus!
