use vstd::prelude::*;

verus! {

/// A registered account, as the user store hands it out.
pub struct User {
    pub id: u64,
    pub email: String,
    pub name: String,
    pub password_hash: String,
    pub avatar_url: Option<String>,
}

/// The mathematical shape of a `User`.
#[verifier::ext_equal]
pub struct UserView {
    pub id: u64,
    pub email: Seq<char>,
    pub name: Seq<char>,
    pub password_hash: Seq<char>,
    pub avatar_url: Option<Seq<char>>,
}

impl View for User {
    type V = UserView;

    open spec fn view(&self) -> UserView {
        UserView {
            id: self.id,
            email: self.email@,
            name: self.name@,
            password_hash: self.password_hash@,
            avatar_url: self.avatar_url.deep_view(),
        }
    }
}

impl DeepView for User {
    type V = UserView;

    open spec fn deep_view(&self) -> UserView {
        self.view()
    }
}

pub(crate) fn clone_opt_string(o: &Option<String>) -> (r: Option<String>)
    ensures
        r == *o,
{
    match o {
        Some(s) => Some(s.clone()),
        None => None,
    }
}

impl Clone for User {
    fn clone(&self) -> (r: Self)
        ensures
            r == *self,
    {
        User {
            id: self.id,
            email: self.email.clone(),
            name: self.name.clone(),
            password_hash: self.password_hash.clone(),
            avatar_url: clone_opt_string(&self.avatar_url),
        }
    }
}

/// The public key associated with one user; owned by the user-key store.
pub struct UserKey {
    pub user_id: u64,
    pub public_key: String,
}

/// The mathematical shape of a `UserKey`.
#[verifier::ext_equal]
pub struct UserKeyView {
    pub user_id: u64,
    pub public_key: Seq<char>,
}

impl View for UserKey {
    type V = UserKeyView;

    open spec fn view(&self) -> UserKeyView {
        UserKeyView { user_id: self.user_id, public_key: self.public_key@ }
    }
}

impl DeepView for UserKey {
    type V = UserKeyView;

    open spec fn deep_view(&self) -> UserKeyView {
        self.view()
    }
}

/// The transient state identifying an authenticated caller; rebuilt on each
/// login or refresh, and held only by the session context.
pub struct UserSession {
    pub user_id: u64,
    pub user_email: String,
    pub user_name: String,
    pub user_public_key: String,
    pub user_avatar_url: Option<String>,
}

/// The mathematical shape of a `UserSession`.
#[verifier::ext_equal]
pub struct UserSessionView {
    pub user_id: u64,
    pub user_email: Seq<char>,
    pub user_name: Seq<char>,
    pub user_public_key: Seq<char>,
    pub user_avatar_url: Option<Seq<char>>,
}

impl View for UserSession {
    type V = UserSessionView;

    open spec fn view(&self) -> UserSessionView {
        UserSessionView {
            user_id: self.user_id,
            user_email: self.user_email@,
            user_name: self.user_name@,
            user_public_key: self.user_public_key@,
            user_avatar_url: self.user_avatar_url.deep_view(),
        }
    }
}

impl DeepView for UserSession {
    type V = UserSessionView;

    open spec fn deep_view(&self) -> UserSessionView {
        self.view()
    }
}

impl Clone for UserSession {
    fn clone(&self) -> (r: Self)
        ensures
            r == *self,
    {
        UserSession {
            user_id: self.user_id,
            user_email: self.user_email.clone(),
            user_name: self.user_name.clone(),
            user_public_key: self.user_public_key.clone(),
            user_avatar_url: clone_opt_string(&self.user_avatar_url),
        }
    }
}

/// A pending registration: an 8-character confirmation pin together with the
/// data the confirmation step will need.
pub struct SignUpToken {
    pub pin: String,
    pub name: String,
    pub email: String,
    pub password: String,
    pub avatar_url: Option<String>,
}

/// The mathematical shape of a `SignUpToken`.
#[verifier::ext_equal]
pub struct SignUpTokenView {
    pub pin: Seq<char>,
    pub name: Seq<char>,
    pub email: Seq<char>,
    pub password: Seq<char>,
    pub avatar_url: Option<Seq<char>>,
}

impl View for SignUpToken {
    type V = SignUpTokenView;

    open spec fn view(&self) -> SignUpTokenView {
        SignUpTokenView {
            pin: self.pin@,
            name: self.name@,
            email: self.email@,
            password: self.password@,
            avatar_url: self.avatar_url.deep_view(),
        }
    }
}

/// A password-reset grant: a 32-character token id and a 512-character
/// temporary password.
pub struct PasswordToken {
    pub id: String,
    pub password: String,
}

/// The mathematical shape of a `PasswordToken`.
#[verifier::ext_equal]
pub struct PasswordTokenView {
    pub id: Seq<char>,
    pub password: Seq<char>,
}

impl View for PasswordToken {
    type V = PasswordTokenView;

    open spec fn view(&self) -> PasswordTokenView {
        PasswordTokenView { id: self.id@, password: self.password@ }
    }
}

} // verus!
