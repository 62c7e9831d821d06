use vstd::prelude::*;

use crate::error::ServiceError;
use crate::models::{clone_opt_string, User, UserKey, UserKeyView, UserSession, UserSessionView, UserView};
use crate::repository::{
    EmailSenderTrait, EmailView, PasswordTokenRepositoryTrait, SessionContextTrait,
    SignUpTokenRepositoryTrait, UserKeyRepositoryTrait, UserRepositoryTrait,
};
use crate::text::{str_eq, u64_to_dec_string};

verus! {

/// The first user in `s` whose email is `email`, if any.
pub open spec fn find_user_by_email(s: Seq<UserView>, email: Seq<char>) -> Option<UserView>
    decreases s.len(),
{
    if s.len() == 0 {
        None
    } else if s[0].email == email {
        Some(s[0])
    } else {
        find_user_by_email(s.drop_first(), email)
    }
}

/// The first user in `s` whose id is `id`, if any.
pub open spec fn find_user_by_id(s: Seq<UserView>, id: u64) -> Option<UserView>
    decreases s.len(),
{
    if s.len() == 0 {
        None
    } else if s[0].id == id {
        Some(s[0])
    } else {
        find_user_by_id(s.drop_first(), id)
    }
}

/// The public key of the first key record in `s` for `user_id`, if any.
pub open spec fn find_key_by_user_id(s: Seq<UserKeyView>, user_id: u64) -> Option<Seq<char>>
    decreases s.len(),
{
    if s.len() == 0 {
        None
    } else if s[0].user_id == user_id {
        Some(s[0].public_key)
    } else {
        find_key_by_user_id(s.drop_first(), user_id)
    }
}

/// A user store backed by a vector: the fake that tests substitute for the
/// external database.
pub struct InMemoryUserRepository {
    pub users: Vec<User>,
}

impl InMemoryUserRepository {
    /// An empty store.
    pub fn new() -> (r: Self)
        ensures
            r.users@ == Seq::<User>::empty(),
    {
        InMemoryUserRepository { users: Vec::new() }
    }

    /// Appends one user record.
    pub fn add(&mut self, user: User)
        ensures
            final(self).users@ == old(self).users@.push(user),
    {
        self.users.push(user);
    }
}

impl UserRepositoryTrait for InMemoryUserRepository {
    open spec fn user_by_email(&self, email: Seq<char>) -> Option<UserView> {
        find_user_by_email(self.users.deep_view(), email)
    }

    open spec fn user_by_id(&self, id: u64) -> Option<UserView> {
        find_user_by_id(self.users.deep_view(), id)
    }

    fn find_by_email(&self, email: &str) -> (r: Result<User, ServiceError>) {
        let ghost s = self.users.deep_view();
        proof {
            assert(s.skip(0) =~= s);
        }
        let mut i: usize = 0;
        while i < self.users.len()
            invariant
                i <= self.users.len(),
                s == self.users.deep_view(),
                find_user_by_email(s, email@) == find_user_by_email(s.skip(i as int), email@),
            decreases self.users.len() - i,
        {
            proof {
                assert(s.skip(i as int)[0] == s[i as int]);
            }
            if str_eq(self.users[i].email.as_str(), email) {
                let u = self.users[i].clone();
                proof {
                    assert(find_user_by_email(s.skip(i as int), email@) == Some(s[i as int]));
                }
                return Ok(u);
            }
            proof {
                assert(s.skip(i as int).drop_first() =~= s.skip(i as int + 1));
            }
            i = i + 1;
        }
        proof {
            assert(s.skip(self.users.len() as int) =~= Seq::<UserView>::empty());
        }
        Err(ServiceError::NotFound(email.to_owned()))
    }

    fn find_password_by_email(&self, email: &str) -> (r: Result<String, ServiceError>) {
        match self.find_by_email(email) {
            Ok(u) => Ok(u.password_hash),
            Err(e) => Err(e),
        }
    }

    fn find_by_id(&self, id: u64) -> (r: Result<User, ServiceError>) {
        let ghost s = self.users.deep_view();
        proof {
            assert(s.skip(0) =~= s);
        }
        let mut i: usize = 0;
        while i < self.users.len()
            invariant
                i <= self.users.len(),
                s == self.users.deep_view(),
                find_user_by_id(s, id) == find_user_by_id(s.skip(i as int), id),
            decreases self.users.len() - i,
        {
            proof {
                assert(s.skip(i as int)[0] == s[i as int]);
            }
            if self.users[i].id == id {
                let u = self.users[i].clone();
                proof {
                    assert(find_user_by_id(s.skip(i as int), id) == Some(s[i as int]));
                }
                return Ok(u);
            }
            proof {
                assert(s.skip(i as int).drop_first() =~= s.skip(i as int + 1));
            }
            i = i + 1;
        }
        proof {
            assert(s.skip(self.users.len() as int) =~= Seq::<UserView>::empty());
        }
        Err(ServiceError::NotFound(u64_to_dec_string(id)))
    }
}

/// A user-key store backed by a vector: the fake that tests substitute for
/// the external database.
pub struct InMemoryUserKeyRepository {
    pub keys: Vec<UserKey>,
}

impl InMemoryUserKeyRepository {
    /// An empty store.
    pub fn new() -> (r: Self)
        ensures
            r.keys@ == Seq::<UserKey>::empty(),
    {
        InMemoryUserKeyRepository { keys: Vec::new() }
    }

    /// Appends one key record.
    pub fn add(&mut self, key: UserKey)
        ensures
            final(self).keys@ == old(self).keys@.push(key),
    {
        self.keys.push(key);
    }
}

impl UserKeyRepositoryTrait for InMemoryUserKeyRepository {
    open spec fn key_by_user_id(&self, user_id: u64) -> Option<Seq<char>> {
        find_key_by_user_id(self.keys.deep_view(), user_id)
    }

    fn find_by_user_id(&self, user_id: u64) -> (r: Result<UserKey, ServiceError>) {
        let ghost s = self.keys.deep_view();
        proof {
            assert(s.skip(0) =~= s);
        }
        let mut i: usize = 0;
        while i < self.keys.len()
            invariant
                i <= self.keys.len(),
                s == self.keys.deep_view(),
                find_key_by_user_id(s, user_id) == find_key_by_user_id(s.skip(i as int), user_id),
            decreases self.keys.len() - i,
        {
            proof {
                assert(s.skip(i as int)[0] == s[i as int]);
            }
            if self.keys[i].user_id == user_id {
                let k = UserKey {
                    user_id: self.keys[i].user_id,
                    public_key: self.keys[i].public_key.clone(),
                };
                proof {
                    assert(find_key_by_user_id(s.skip(i as int), user_id) == Some(
                        s[i as int].public_key,
                    ));
                }
                return Ok(k);
            }
            proof {
                assert(s.skip(i as int).drop_first() =~= s.skip(i as int + 1));
            }
            i = i + 1;
        }
        proof {
            assert(s.skip(self.keys.len() as int) =~= Seq::<UserKeyView>::empty());
        }
        Err(ServiceError::NotFound(u64_to_dec_string(user_id)))
    }
}

/// A sign-up-token store backed by a vector: the fake that tests substitute
/// for the external key-value store.
pub struct InMemorySignUpTokenRepository {
    pub tokens: Vec<String>,
}

impl InMemorySignUpTokenRepository {
    /// An empty store.
    pub fn new() -> (r: Self)
        ensures
            r.tokens@ == Seq::<String>::empty(),
    {
        InMemorySignUpTokenRepository { tokens: Vec::new() }
    }
}

impl SignUpTokenRepositoryTrait for InMemorySignUpTokenRepository {
    open spec fn saved(&self) -> Seq<Seq<char>> {
        self.tokens.deep_view()
    }

    fn save(&mut self, serialized_token: &str) -> (r: Result<bool, ServiceError>) {
        self.tokens.push(serialized_token.to_owned());
        proof {
            assert(final(self).tokens.deep_view() =~~= old(self).tokens.deep_view().push(
                serialized_token@,
            ));
        }
        Ok(true)
    }
}

/// A password-token store backed by a vector, scoped to one user id: the
/// fake that tests substitute for the external key-value store.
pub struct InMemoryPasswordTokenRepository {
    pub user_id: u64,
    pub tokens: Vec<String>,
}

impl InMemoryPasswordTokenRepository {
    /// An empty store scoped to `user_id`.
    pub fn new(user_id: u64) -> (r: Self)
        ensures
            r.user_id == user_id,
            r.tokens@ == Seq::<String>::empty(),
    {
        InMemoryPasswordTokenRepository { user_id, tokens: Vec::new() }
    }
}

impl PasswordTokenRepositoryTrait for InMemoryPasswordTokenRepository {
    open spec fn saved(&self) -> Seq<Seq<char>> {
        self.tokens.deep_view()
    }

    fn save(&mut self, serialized_token: &str) -> (r: Result<bool, ServiceError>) {
        self.tokens.push(serialized_token.to_owned());
        proof {
            assert(final(self).tokens.deep_view() =~~= old(self).tokens.deep_view().push(
                serialized_token@,
            ));
        }
        Ok(true)
    }
}

/// One recorded message of the in-memory email sender.
pub struct Email {
    pub to: String,
    pub subject: String,
    pub body: String,
}

impl View for Email {
    type V = EmailView;

    open spec fn view(&self) -> EmailView {
        EmailView { to: self.to@, subject: self.subject@, body: self.body@ }
    }
}

impl DeepView for Email {
    type V = EmailView;

    open spec fn deep_view(&self) -> EmailView {
        self.view()
    }
}

/// An email sender that records every message instead of delivering it: the
/// fake that tests substitute for the external transport.
pub struct InMemoryEmailSender {
    pub messages: Vec<Email>,
}

impl InMemoryEmailSender {
    /// A sender with nothing recorded yet.
    pub fn new() -> (r: Self)
        ensures
            r.messages@ == Seq::<Email>::empty(),
    {
        InMemoryEmailSender { messages: Vec::new() }
    }
}

impl EmailSenderTrait for InMemoryEmailSender {
    open spec fn sent(&self) -> Seq<EmailView> {
        self.messages.deep_view()
    }

    fn send(&mut self, to: &str, subject: &str, body: &str) -> (r: Result<bool, ServiceError>) {
        self.messages.push(
            Email { to: to.to_owned(), subject: subject.to_owned(), body: body.to_owned() },
        );
        proof {
            assert(final(self).messages.deep_view() =~~= old(self).messages.deep_view().push(
                (EmailView { to: to@, subject: subject@, body: body@ }),
            ));
        }
        Ok(true)
    }
}

/// A session context holding the session directly: the fake that tests and
/// callers substitute for the external cookie-backed context.
pub struct InMemorySessionContext {
    pub current: Option<UserSession>,
}

impl InMemorySessionContext {
    /// A context with no session.
    pub fn new() -> (r: Self)
        ensures
            r.current is None,
    {
        InMemorySessionContext { current: None }
    }

    /// A context already holding `session`.
    pub fn with_session(session: UserSession) -> (r: Self)
        ensures
            r.current == Some(session),
    {
        InMemorySessionContext { current: Some(session) }
    }
}

impl SessionContextTrait for InMemorySessionContext {
    open spec fn session(&self) -> Option<UserSessionView> {
        self.current.deep_view()
    }

    fn get_session(&self) -> (r: Option<UserSession>) {
        match &self.current {
            Some(s) => Some(s.clone()),
            None => None,
        }
    }

    fn set_session(
        &mut self,
        user_id: u64,
        user_email: &str,
        user_name: &str,
        user_public_key: &str,
        user_avatar_url: &Option<String>,
    ) {
        self.current = Some(
            UserSession {
                user_id,
                user_email: user_email.to_owned(),
                user_name: user_name.to_owned(),
                user_public_key: user_public_key.to_owned(),
                user_avatar_url: clone_opt_string(user_avatar_url),
            },
        );
    }
}

} // verus!
