use vstd::prelude::*;
use vstd::string::StringExecFns;

use crate::error::{ServiceError, ServiceErrorView};
use crate::json::{
    password_token_json, serialize_password_token, serialize_sign_up_token, sign_up_token_json,
};
use crate::models::{
    clone_opt_string, PasswordToken, PasswordTokenView, SignUpToken, SignUpTokenView, UserSession,
    UserSessionView,
};
use crate::password::{check_password, get_hashed_password, password_verifies};
use crate::random::{all_alphanumeric, random_alphanumeric};
use crate::repository::{
    EmailSenderTrait, EmailView, PasswordTokenRepositoryTrait, SessionContextTrait,
    SignUpTokenRepositoryTrait, UserKeyRepositoryTrait, UserRepositoryTrait,
};
use crate::text::{check_blank, dec_seq, is_blank};

verus! {

/// What `login` must return, given the stores' lookup tables: the stored
/// hash is looked up by email (`NotFound` if absent), the password is
/// compared against it (`Unauthorized` on mismatch), and the session is
/// assembled from the stored user and the stored public key.
pub open spec fn login_spec<U: UserRepositoryTrait, K: UserKeyRepositoryTrait>(
    urepo: U,
    krepo: K,
    email: Seq<char>,
    password: Seq<char>,
) -> Result<UserSessionView, ServiceErrorView> {
    match urepo.user_by_email(email) {
        None => Err(ServiceErrorView::NotFound(email)),
        Some(u) => if !password_verifies(password, u.password_hash) {
            Err(ServiceErrorView::Unauthorized)
        } else {
            match krepo.key_by_user_id(u.id) {
                None => Err(ServiceErrorView::NotFound(dec_seq(u.id as nat))),
                Some(pk) => Ok(
                    UserSessionView {
                        user_id: u.id,
                        user_email: u.email,
                        user_name: u.name,
                        user_public_key: pk,
                        user_avatar_url: u.avatar_url,
                    },
                ),
            }
        },
    }
}

/// What `refresh_user_session` must return, given the user store and the
/// prior session: `Unauthorized` with no prior session, `NotFound` if the
/// account is gone, and otherwise a session with the name and avatar
/// re-read from the store while id, email and public key are kept.
pub open spec fn refresh_spec<U: UserRepositoryTrait>(
    urepo: U,
    prior: Option<UserSessionView>,
) -> Result<UserSessionView, ServiceErrorView> {
    match prior {
        None => Err(ServiceErrorView::Unauthorized),
        Some(s) => match urepo.user_by_id(s.user_id) {
            None => Err(ServiceErrorView::NotFound(dec_seq(s.user_id as nat))),
            Some(u) => Ok(
                UserSessionView {
                    user_id: s.user_id,
                    user_email: s.user_email,
                    user_name: u.name,
                    user_public_key: s.user_public_key,
                    user_avatar_url: u.avatar_url,
                },
            ),
        },
    }
}

/// The notification email sent after a sign-up token is persisted.
pub open spec fn sign_up_email_body(name: Seq<char>, pin: Seq<char>) -> Seq<char> {
    "Hello "@ + name
        + " :)\n\nYou’ve joined Darim.\n\nPlease visit the link to finish the sign up processs:\n"@
        + pin
}

/// The notification email sent after a password token is persisted.
pub open spec fn password_email_body(password: Seq<char>, id: Seq<char>) -> Seq<char> {
    "Hello :)\n\nPlease copy the temporary password:\n"@ + password
        + "\n\nand visit the link to reset your password:\n"@ + id
}

/// Delivery is best-effort: an absent sender stays absent, and a present
/// sender has either delivered exactly `mail` or nothing.
pub open spec fn email_outcome<E: EmailSenderTrait>(
    old_sender: Option<E>,
    new_sender: Option<E>,
    mail: EmailView,
) -> bool {
    match (old_sender, new_sender) {
        (None, None) => true,
        (Some(o), Some(n)) => n.sent() == o.sent() || n.sent() == o.sent().push(mail),
        _ => false,
    }
}

/// The effect of a successful sign-up-token issuance: for some fresh
/// 8-character alphanumeric pin and some hash that verifies the password,
/// exactly the serialized token was appended to the store, and the
/// notification carrying the pin was delivered best-effort.
pub open spec fn sign_up_effect<S: SignUpTokenRepositoryTrait, E: EmailSenderTrait>(
    old_repo: S,
    new_repo: S,
    old_sender: Option<E>,
    new_sender: Option<E>,
    name: Seq<char>,
    email: Seq<char>,
    password: Seq<char>,
    avatar_url: Option<Seq<char>>,
) -> bool {
    exists|pin: Seq<char>, hash: Seq<char>|
        #![trigger sign_up_token_json(SignUpTokenView { pin, name, email, password: hash, avatar_url })]
        {
            &&& pin.len() == 8
            &&& all_alphanumeric(pin)
            &&& password_verifies(password, hash)
            &&& new_repo.saved() == old_repo.saved().push(
                sign_up_token_json(
                    SignUpTokenView { pin, name, email, password: hash, avatar_url },
                ),
            )
            &&& email_outcome(
                old_sender,
                new_sender,
                EmailView {
                    to: email,
                    subject: "Welcome to Darim"@,
                    body: sign_up_email_body(name, pin),
                },
            )
        }
}

/// The effect of a successful password-token issuance: for some fresh
/// 32-character alphanumeric id and 512-character alphanumeric temporary
/// password, exactly the serialized token was appended to the store, and the
/// notification carrying both was delivered best-effort.
pub open spec fn password_token_effect<P: PasswordTokenRepositoryTrait, E: EmailSenderTrait>(
    old_repo: P,
    new_repo: P,
    old_sender: Option<E>,
    new_sender: Option<E>,
    email: Seq<char>,
) -> bool {
    exists|id: Seq<char>, pwd: Seq<char>|
        #![trigger password_token_json(PasswordTokenView { id, password: pwd })]
        {
            &&& id.len() == 32
            &&& all_alphanumeric(id)
            &&& pwd.len() == 512
            &&& all_alphanumeric(pwd)
            &&& new_repo.saved() == old_repo.saved().push(
                password_token_json(PasswordTokenView { id, password: pwd }),
            )
            &&& email_outcome(
                old_sender,
                new_sender,
                EmailView {
                    to: email,
                    subject: "Please reset your password"@,
                    body: password_email_body(pwd, id),
                },
            )
        }
}

/// For every email and password where the stored hash matches the password,
/// and the user's public key is on record, `login` owes a session whose id,
/// email, name and avatar are the stored user's and whose public key is the
/// stored key.
pub proof fn lemma_login_success<U: UserRepositoryTrait, K: UserKeyRepositoryTrait>(
    urepo: U,
    krepo: K,
    email: Seq<char>,
    password: Seq<char>,
)
    requires
        urepo.user_by_email(email) is Some,
        password_verifies(password, urepo.user_by_email(email)->Some_0.password_hash),
        krepo.key_by_user_id(urepo.user_by_email(email)->Some_0.id) is Some,
    ensures
        login_spec(urepo, krepo, email, password) == Ok::<UserSessionView, ServiceErrorView>(
            UserSessionView {
                user_id: urepo.user_by_email(email)->Some_0.id,
                user_email: urepo.user_by_email(email)->Some_0.email,
                user_name: urepo.user_by_email(email)->Some_0.name,
                user_public_key: krepo.key_by_user_id(urepo.user_by_email(email)->Some_0.id)->Some_0,
                user_avatar_url: urepo.user_by_email(email)->Some_0.avatar_url,
            },
        ),
{
}

/// For every password that does not match the stored hash, `login` owes
/// `Unauthorized` and no session.
pub proof fn lemma_login_mismatch<U: UserRepositoryTrait, K: UserKeyRepositoryTrait>(
    urepo: U,
    krepo: K,
    email: Seq<char>,
    password: Seq<char>,
)
    requires
        urepo.user_by_email(email) is Some,
        !password_verifies(password, urepo.user_by_email(email)->Some_0.password_hash),
    ensures
        login_spec(urepo, krepo, email, password) == Err::<UserSessionView, ServiceErrorView>(
            ServiceErrorView::Unauthorized,
        ),
{
}

/// For every email absent from the user store, `login` owes `NotFound`
/// carrying that email, whatever the password.
pub proof fn lemma_login_unknown_email<U: UserRepositoryTrait, K: UserKeyRepositoryTrait>(
    urepo: U,
    krepo: K,
    email: Seq<char>,
    password: Seq<char>,
)
    requires
        urepo.user_by_email(email) is None,
    ensures
        login_spec(urepo, krepo, email, password) == Err::<UserSessionView, ServiceErrorView>(
            ServiceErrorView::NotFound(email),
        ),
{
}

/// For every prior session whose user still exists, a refresh owes a
/// session with the name and avatar re-read from the store and the user id,
/// email and public key of the prior session; without a prior session it
/// owes `Unauthorized`.
pub proof fn lemma_refresh_outcomes<U: UserRepositoryTrait>(
    urepo: U,
    prior: Option<UserSessionView>,
)
    ensures
        prior is None ==> refresh_spec(urepo, prior) == Err::<UserSessionView, ServiceErrorView>(
            ServiceErrorView::Unauthorized,
        ),
        (prior is Some && urepo.user_by_id(prior->Some_0.user_id) is Some) ==> refresh_spec(
            urepo,
            prior,
        ) == Ok::<UserSessionView, ServiceErrorView>(
            UserSessionView {
                user_id: prior->Some_0.user_id,
                user_email: prior->Some_0.user_email,
                user_name: urepo.user_by_id(prior->Some_0.user_id)->Some_0.name,
                user_public_key: prior->Some_0.user_public_key,
                user_avatar_url: urepo.user_by_id(prior->Some_0.user_id)->Some_0.avatar_url,
            },
        ),
{
}

/// The authentication service: login, session refresh, and issuance of the
/// two ephemeral tokens, against whatever store implementations were
/// injected at construction.
pub struct AuthService<S, P, K, U, E> {
    pub sign_up_token_repository: Option<S>,
    pub password_token_repository: Option<P>,
    pub user_key_repository: Option<K>,
    pub user_repository: Option<U>,
    pub email_sender: Option<E>,
}

impl<
    S: SignUpTokenRepositoryTrait,
    P: PasswordTokenRepositoryTrait,
    K: UserKeyRepositoryTrait,
    U: UserRepositoryTrait,
    E: EmailSenderTrait,
> AuthService<S, P, K, U, E> {
    /// A service with no stores attached yet.
    pub fn new() -> (r: Self)
        ensures
            r.sign_up_token_repository is None,
            r.password_token_repository is None,
            r.user_key_repository is None,
            r.user_repository is None,
            r.email_sender is None,
    {
        AuthService {
            sign_up_token_repository: None,
            password_token_repository: None,
            user_key_repository: None,
            user_repository: None,
            email_sender: None,
        }
    }

    /// A service with every store injected; tests pass fakes here.
    pub fn new_with_repository(
        sign_up_token_repository: S,
        password_token_repository: P,
        user_key_repository: K,
        user_repository: U,
        email_sender: E,
    ) -> (r: Self)
        ensures
            r.sign_up_token_repository == Some(sign_up_token_repository),
            r.password_token_repository == Some(password_token_repository),
            r.user_key_repository == Some(user_key_repository),
            r.user_repository == Some(user_repository),
            r.email_sender == Some(email_sender),
    {
        AuthService {
            sign_up_token_repository: Some(sign_up_token_repository),
            password_token_repository: Some(password_token_repository),
            user_key_repository: Some(user_key_repository),
            user_repository: Some(user_repository),
            email_sender: Some(email_sender),
        }
    }

    /// Signs in: looks up the stored hash by email, compares the password,
    /// and assembles the session from the stored user and public key. No
    /// store is written; installing the session is the caller's business.
    pub fn login(&mut self, email: &str, password: &str) -> (r: Result<UserSession, ServiceError>)
        requires
            old(self).user_repository is Some,
            old(self).user_key_repository is Some,
        ensures
            *final(self) == *old(self),
            ({
                let expected = login_spec(
                    old(self).user_repository.unwrap(),
                    old(self).user_key_repository.unwrap(),
                    email@,
                    password@,
                );
                match (r, expected) {
                    (Ok(s), Ok(sv)) => s@ == sv,
                    (Err(e), Err(ev)) => e@ == ev,
                    _ => false,
                }
            }),
    {
        let found_password = match self.user_repository.as_ref().unwrap().find_password_by_email(
            email,
        ) {
            Ok(p) => p,
            Err(e) => {
                return Err(e);
            },
        };
        if check_password(password, found_password.as_str()) {
            let user = match self.user_repository.as_ref().unwrap().find_by_email(email) {
                Ok(u) => u,
                Err(e) => {
                    return Err(e);
                },
            };
            let user_public_key = match self.user_key_repository.as_ref().unwrap().find_by_user_id(
                user.id,
            ) {
                Ok(k) => k.public_key,
                Err(e) => {
                    return Err(e);
                },
            };
            let logged_in_user_session = UserSession {
                user_id: user.id,
                user_email: user.email,
                user_name: user.name,
                user_public_key,
                user_avatar_url: user.avatar_url,
            };
            proof {
                assert(logged_in_user_session@ =~= login_spec(
                    old(self).user_repository.unwrap(),
                    old(self).user_key_repository.unwrap(),
                    email@,
                    password@,
                )->Ok_0);
            }
            Ok(logged_in_user_session)
        } else {
            Err(ServiceError::Unauthorized)
        }
    }

    /// Refreshes the session held by `session`: `Unauthorized` without a
    /// prior session, otherwise the account is re-read, the refreshed
    /// session is written back, and the session re-read from the context is
    /// returned (a consistency check against context bugs).
    pub fn refresh_user_session<C: SessionContextTrait>(&mut self, session: &mut C) -> (r: Result<
        UserSession,
        ServiceError,
    >)
        requires
            old(self).user_repository is Some,
        ensures
            *final(self) == *old(self),
            ({
                let expected = refresh_spec(
                    old(self).user_repository.unwrap(),
                    old(session).session(),
                );
                match (r, expected) {
                    (Ok(s), Ok(sv)) => s@ == sv && final(session).session() == Some(sv),
                    (Err(e), Err(ev)) => e@ == ev && final(session).session() == old(
                        session,
                    ).session(),
                    _ => false,
                }
            }),
    {
        let user_session = match session.get_session() {
            Some(s) => s,
            None => {
                return Err(ServiceError::Unauthorized);
            },
        };
        let user = match self.user_repository.as_ref().unwrap().find_by_id(user_session.user_id) {
            Ok(u) => u,
            Err(e) => {
                return Err(e);
            },
        };
        session.set_session(
            user_session.user_id,
            user_session.user_email.as_str(),
            user.name.as_str(),
            user_session.user_public_key.as_str(),
            &user.avatar_url,
        );
        match session.get_session() {
            Some(refreshed_user_session) => {
                proof {
                    assert(refreshed_user_session@ =~= refresh_spec(
                        old(self).user_repository.unwrap(),
                        old(session).session(),
                    )->Ok_0);
                }
                Ok(refreshed_user_session)
            },
            None => Err(ServiceError::Unauthorized),
        }
    }

    /// Issues a sign-up token: validates the input, generates the pin,
    /// hashes the password, serializes and persists the token, and sends the
    /// confirmation email best-effort.
    pub fn set_sign_up_token(
        &mut self,
        name: &str,
        email: &str,
        password: &str,
        avatar_url: &Option<String>,
    ) -> (r: Result<bool, ServiceError>)
        requires
            old(self).sign_up_token_repository is Some,
        ensures
            final(self).password_token_repository == old(self).password_token_repository,
            final(self).user_key_repository == old(self).user_key_repository,
            final(self).user_repository == old(self).user_repository,
            final(self).sign_up_token_repository is Some,
            (is_blank(name@) || is_blank(email@) || is_blank(password@)) ==> (*final(self) == *old(
                self,
            ) && (r matches Err(e) && e@ == ServiceErrorView::InvalidArgument)),
            !(is_blank(name@) || is_blank(email@) || is_blank(password@)) ==> (match r {
                Ok(b) => b && sign_up_effect(
                    old(self).sign_up_token_repository.unwrap(),
                    final(self).sign_up_token_repository.unwrap(),
                    old(self).email_sender,
                    final(self).email_sender,
                    name@,
                    email@,
                    password@,
                    avatar_url.deep_view(),
                ),
                Err(e) => {
                    &&& (e@ == ServiceErrorView::InvalidFormat || e@
                        == ServiceErrorView::StoreFailure)
                    &&& final(self).sign_up_token_repository.unwrap().saved() == old(
                        self,
                    ).sign_up_token_repository.unwrap().saved()
                    &&& final(self).email_sender == old(self).email_sender
                },
            }),
    {
        if check_blank(name) || check_blank(email) || check_blank(password) {
            return Err(ServiceError::InvalidArgument);
        }
        let pin = random_alphanumeric(8);
        let hashed_password = match get_hashed_password(password) {
            Ok(h) => h,
            Err(e) => {
                return Err(e);
            },
        };
        let token = SignUpToken {
            pin,
            name: name.to_owned(),
            email: email.to_owned(),
            password: hashed_password,
            avatar_url: clone_opt_string(avatar_url),
        };
        let serialized_token = serialize_sign_up_token(&token);
        let ghost pin_view = token.pin@;
        let ghost hash_view = token.password@;
        let result = match self.sign_up_token_repository.as_mut().unwrap().save(
            serialized_token.as_str(),
        ) {
            Ok(b) => b,
            Err(e) => {
                return Err(e);
            },
        };
        let mut body = String::new();
        body.append("Hello ");
        body.append(name);
        body.append(
            " :)\n\nYou’ve joined Darim.\n\nPlease visit the link to finish the sign up processs:\n",
        );
        body.append(token.pin.as_str());
        if self.email_sender.is_some() {
            let _send_outcome = self.email_sender.as_mut().unwrap().send(
                token.email.as_str(),
                "Welcome to Darim",
                body.as_str(),
            );
        }
        proof {
            assert(body@ =~= sign_up_email_body(name@, pin_view));
            assert(sign_up_effect(
                old(self).sign_up_token_repository.unwrap(),
                final(self).sign_up_token_repository.unwrap(),
                old(self).email_sender,
                final(self).email_sender,
                name@,
                email@,
                password@,
                avatar_url.deep_view(),
            )) by {
                assert(sign_up_token_json(
                    SignUpTokenView {
                        pin: pin_view,
                        name: name@,
                        email: email@,
                        password: hash_view,
                        avatar_url: avatar_url.deep_view(),
                    },
                ) == serialized_token@);
            }
        }
        Ok(result)
    }

    /// Issues a password-reset token for the account under `email`:
    /// generates the token id and temporary password, serializes and
    /// persists the token, and sends the notification email best-effort.
    pub fn set_password_token(&mut self, email: &str) -> (r: Result<bool, ServiceError>)
        requires
            old(self).user_repository is Some,
            old(self).password_token_repository is Some,
        ensures
            final(self).sign_up_token_repository == old(self).sign_up_token_repository,
            final(self).user_key_repository == old(self).user_key_repository,
            final(self).user_repository == old(self).user_repository,
            final(self).password_token_repository is Some,
            (match old(self).user_repository.unwrap().user_by_email(email@) {
                None => *final(self) == *old(self) && (r matches Err(e) && e@
                    == ServiceErrorView::NotFound(email@)),
                Some(u) => match r {
                    Ok(b) => b && password_token_effect(
                        old(self).password_token_repository.unwrap(),
                        final(self).password_token_repository.unwrap(),
                        old(self).email_sender,
                        final(self).email_sender,
                        email@,
                    ),
                    Err(e) => {
                        &&& e@ == ServiceErrorView::StoreFailure
                        &&& final(self).password_token_repository.unwrap().saved() == old(
                            self,
                        ).password_token_repository.unwrap().saved()
                        &&& final(self).email_sender == old(self).email_sender
                    },
                },
            }),
    {
        let user = match self.user_repository.as_ref().unwrap().find_by_email(email) {
            Ok(u) => u,
            Err(e) => {
                return Err(e);
            },
        };
        let token = PasswordToken {
            id: random_alphanumeric(32),
            password: random_alphanumeric(512),
        };
        let serialized_token = serialize_password_token(&token);
        let ghost id_view = token.id@;
        let ghost pwd_view = token.password@;
        let result = match self.password_token_repository.as_mut().unwrap().save(
            serialized_token.as_str(),
        ) {
            Ok(b) => b,
            Err(e) => {
                return Err(e);
            },
        };
        let mut body = String::new();
        body.append("Hello :)\n\nPlease copy the temporary password:\n");
        body.append(token.password.as_str());
        body.append("\n\nand visit the link to reset your password:\n");
        body.append(token.id.as_str());
        if self.email_sender.is_some() {
            let _send_outcome = self.email_sender.as_mut().unwrap().send(
                email,
                "Please reset your password",
                body.as_str(),
            );
        }
        proof {
            assert(body@ =~= password_email_body(pwd_view, id_view));
            assert(password_token_effect(
                old(self).password_token_repository.unwrap(),
                final(self).password_token_repository.unwrap(),
                old(self).email_sender,
                final(self).email_sender,
                email@,
            )) by {
                assert(password_token_json(
                    (PasswordTokenView { id: id_view, password: pwd_view }),
                ) == serialized_token@);
            }
        }
        Ok(result)
    }
}

impl<
    S: SignUpTokenRepositoryTrait,
    P: PasswordTokenRepositoryTrait,
    K: UserKeyRepositoryTrait,
    U: UserRepositoryTrait,
    E: EmailSenderTrait,
> Default for AuthService<S, P, K, U, E> {
    /// The same empty service that `new` builds.
    fn default() -> (r: Self)
        ensures
            r.sign_up_token_repository is None,
            r.password_token_repository is None,
            r.user_key_repository is None,
            r.user_repository is None,
            r.email_sender is None,
    {
        Self::new()
    }
}

} // verus!
