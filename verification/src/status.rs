//! What a caller sees.

use crate::text::{copy_opt, opt_view};
use vstd::prelude::*;
use vstd::string::*;

verus! {

/// A started login: what to show somebody, and how long they have to act on it.
///
/// Everything here is meant for a person's eyes except [`interval`](Self::interval), which is the
/// server's polling cadence and is reported only so a caller can explain a wait.
#[derive(Debug, PartialEq, Eq)]
pub struct LoginCode {
    /// The eight characters somebody types. **Show this.**
    pub user_code: String,
    /// Where they type it.
    pub verification_uri: String,
    /// The URI that carries the code, where a server sends one.
    ///
    /// Hugging Face does not, so this is [`verification_uri`](Self::verification_uri) unchanged.
    /// The field stays because it is the protocol's, and a server that starts sending a real one
    /// is then used without a change.
    pub verification_uri_complete: String,
    /// How long the code is good for. In [`Status`] this is what is *left*, so a caller can count
    /// it down rather than repeat the number it started with.
    pub expires_in: u64,
    /// Seconds between polls, as the server asked for them.
    pub interval: u64,
}

/// A [`LoginCode`], with its texts as sequences of characters.
pub struct LoginCodeView {
    pub user_code: Seq<char>,
    pub verification_uri: Seq<char>,
    pub verification_uri_complete: Seq<char>,
    pub expires_in: u64,
    pub interval: u64,
}

impl View for LoginCode {
    type V = LoginCodeView;

    open spec fn view(&self) -> LoginCodeView {
        LoginCodeView {
            user_code: self.user_code@,
            verification_uri: self.verification_uri@,
            verification_uri_complete: self.verification_uri_complete@,
            expires_in: self.expires_in,
            interval: self.interval,
        }
    }
}

impl Clone for LoginCode {
    fn clone(&self) -> (r: LoginCode)
        ensures
            r == *self,
    {
        LoginCode {
            user_code: self.user_code.clone(),
            verification_uri: self.verification_uri.clone(),
            verification_uri_complete: self.verification_uri_complete.clone(),
            expires_in: self.expires_in,
            interval: self.interval,
        }
    }
}

/// Who a robot belongs to.
#[derive(Debug, PartialEq, Eq)]
pub struct Identity {
    /// The Hugging Face username, as `/oauth/userinfo` reports it. What to show a person.
    ///
    /// `"unknown"` when the robot holds a token whose owner could not be read at login — a
    /// network failure on the last and least important call of the flow.
    /// [`maintain`](crate::maintain) fills it in.
    pub username: String,
    /// Seconds until the access token expires; negative once it has, so a caller can say "this
    /// robot needs signing in again" rather than "signed in" about a credential that is dead.
    /// Negative, too, on a clock that has not been set. [`i64::MAX`] when the server named no
    /// expiry.
    pub token_expires_in: i64,
    /// Whether a refresh token was stored. `false` means this credential dies at
    /// [`token_expires_in`](Self::token_expires_in) and nothing can renew it.
    pub refreshable: bool,
}

/// An [`Identity`], with its text as a sequence of characters.
pub struct IdentityView {
    pub username: Seq<char>,
    pub token_expires_in: i64,
    pub refreshable: bool,
}

impl View for Identity {
    type V = IdentityView;

    open spec fn view(&self) -> IdentityView {
        IdentityView {
            username: self.username@,
            token_expires_in: self.token_expires_in,
            refreshable: self.refreshable,
        }
    }
}

impl Clone for Identity {
    fn clone(&self) -> (r: Identity)
        ensures
            r == *self,
    {
        Identity {
            username: self.username.clone(),
            token_expires_in: self.token_expires_in,
            refreshable: self.refreshable,
        }
    }
}

/// Everything [`Account::status`](crate::Account::status) knows, which is everything a client
/// needs to render a wizard.
#[derive(Debug, PartialEq, Eq)]
pub struct Status {
    /// Who the robot belongs to, or `None` for a robot out of the box.
    pub account: Option<Identity>,
    /// A login waiting for approval, with the time *left* on its code.
    ///
    /// Carried here so a client that lost track of a code — a phone that backgrounded itself, a
    /// terminal somebody closed — rejoins the login in flight rather than starting another.
    pub login: Option<LoginCode>,
    /// Why the last thing that failed, failed. `None` once something works.
    ///
    /// This is where somebody looks to find out why remote access stopped, so it carries refresh
    /// failures and abandoned logins — and deliberately not a missing username, which is
    /// cosmetic and did not stop anything.
    pub last_error: Option<String>,
}

/// A [`Status`], with its texts as sequences of characters.
pub struct StatusView {
    pub account: Option<IdentityView>,
    pub login: Option<LoginCodeView>,
    pub last_error: Option<Seq<char>>,
}

impl View for Status {
    type V = StatusView;

    open spec fn view(&self) -> StatusView {
        StatusView {
            account: opt_view(self.account),
            login: opt_view(self.login),
            last_error: opt_view(self.last_error),
        }
    }
}

impl Clone for Status {
    fn clone(&self) -> (r: Status)
        ensures
            r == *self,
    {
        Status {
            account: match &self.account {
                Some(account) => Some(account.clone()),
                None => None,
            },
            login: match &self.login {
                Some(login) => Some(login.clone()),
                None => None,
            },
            last_error: copy_opt(&self.last_error),
        }
    }
}

impl Default for Status {
    /// A robot out of the box: nobody's, with no login in flight and nothing to complain of.
    fn default() -> (r: Status)
        ensures
            r@ == (StatusView { account: None, login: None, last_error: None }),
    {
        Status { account: None, login: None, last_error: None }
    }
}

} // verus!
