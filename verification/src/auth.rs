//! The authorization flow controller: the redirect-based handshake that
//! OAuth-gated adapters need, and the one-shot resume of a pending
//! synchronization once authorization completes.
//!
//! The session store, the redirect itself and the token-exchange call are
//! the caller's work; the controller holds the per-session state and decides
//! each step as a pure transition, so the handshake's behaviour is verified
//! for every sequence of events.

use vstd::prelude::*;
use crate::json::{document_text, json_get, json_parse, json_str};

verus! {

/// One user's authorization state: the synchronization target saved across
/// the redirect to the consent page, the access token once granted, and the
/// remote account's identifier where the platform needs one.
pub struct AuthSession {
    pub pending_target_url: Option<String>,
    pub access_token: Option<String>,
    pub user_id: Option<String>,
}

/// What the controller does after a successful callback: resume the pending
/// synchronization with the saved target, or ask the user for a target.
pub enum CallbackAction {
    Resume { target: String },
    PromptForTarget,
}

/// What the controller does with a synchronization request: run it with the
/// stored credentials, or send the user through the login step first,
/// keeping the requested target.
pub enum CreateAction {
    Run { token: String, user_id: Option<String>, target: String },
    RedirectToLogin { target: String },
}

/// Why an authorization step failed: the token exchange was refused, or its
/// response carried no access token.
#[derive(Debug)]
pub enum AuthError {
    ExchangeFailed,
    MissingToken,
}

/// A prepared token-exchange request: the token endpoint, an optional
/// `Authorization` header, and the form parameters to post.
pub struct TokenRequest {
    pub url: String,
    pub auth_header: Option<String>,
    pub params: Vec<(String, String)>,
}

impl AuthSession {
    /// A fresh, anonymous session.
    pub fn anonymous() -> (r: AuthSession)
        ensures
            r.pending_target_url is None,
            r.access_token is None,
            r.user_id is None,
    {
        AuthSession { pending_target_url: None, access_token: None, user_id: None }
    }
}

/// The session after the login step: a requested target is saved for the
/// resume after the callback; without one the session is unchanged.
pub open spec fn spec_login_step(s: AuthSession, target: Option<String>) -> AuthSession {
    match target {
        Some(t) => AuthSession { pending_target_url: Some(t), ..s },
        None => s,
    }
}

/// The session and action after a successful callback: the token is stored,
/// a saved target is consumed exactly once and resumed, and without one the
/// user is prompted for a target.
pub open spec fn spec_callback_step(s: AuthSession, token: String, user: Option<String>) -> (
    AuthSession,
    CallbackAction,
) {
    let stored = AuthSession {
        pending_target_url: None,
        access_token: Some(token),
        user_id: if user is Some {
            user
        } else {
            s.user_id
        },
    };
    match s.pending_target_url {
        Some(t) => (stored, CallbackAction::Resume { target: t }),
        None => (stored, CallbackAction::PromptForTarget),
    }
}

/// The decision for a synchronization request: run with the stored
/// credentials when they are present, else redirect to login carrying the
/// target. `needs_user` holds for platforms whose creation call needs the
/// account identifier as well as the token.
pub open spec fn spec_create_step(s: AuthSession, target: String, needs_user: bool) -> CreateAction {
    match s.access_token {
        Some(tok) => if needs_user && s.user_id is None {
            CreateAction::RedirectToLogin { target }
        } else {
            CreateAction::Run { token: tok, user_id: s.user_id, target }
        },
        None => CreateAction::RedirectToLogin { target },
    }
}

/// Perform the login step on the session: save the requested target, if
/// any, before the user agent is sent to the remote consent page.
pub fn login_step(session: &mut AuthSession, target: Option<String>)
    ensures
        *final(session) == spec_login_step(*old(session), target),
{
    match target {
        Some(t) => {
            session.pending_target_url = Some(t);
        },
        None => {},
    }
}

/// Perform the callback step on the session once the one-time code was
/// exchanged: store the token (and account identifier, where given), and
/// consume the pending target exactly once.
pub fn callback_step(session: &mut AuthSession, token: String, user: Option<String>) -> (action:
    CallbackAction)
    ensures
        ({
            let (s2, a) = spec_callback_step(*old(session), token, user);
            *final(session) == s2 && action == a
        }),
{
    session.access_token = Some(token);
    match user {
        Some(u) => {
            session.user_id = Some(u);
        },
        None => {},
    }
    match session.pending_target_url.take() {
        Some(t) => CallbackAction::Resume { target: t },
        None => CallbackAction::PromptForTarget,
    }
}

/// Decide a synchronization request against the session's credentials.
pub fn create_step(session: &AuthSession, target: String, needs_user: bool) -> (r: CreateAction)
    ensures
        r == spec_create_step(*session, target, needs_user),
{
    match &session.access_token {
        Some(tok) => {
            let user_id = match &session.user_id {
                Some(u) => Some(u.clone()),
                None => None,
            };
            if needs_user && user_id.is_none() {
                CreateAction::RedirectToLogin { target }
            } else {
                CreateAction::Run { token: tok.clone(), user_id, target }
            }
        },
        None => CreateAction::RedirectToLogin { target },
    }
}

/// A saved target is resumed exactly once: a callback on a session holding
/// the pending target `target` resumes it and leaves no pending target, and
/// a replayed callback on the resulting session only prompts, whatever
/// tokens the two callbacks carry.
pub proof fn lemma_resume_once(
    s: AuthSession,
    target: String,
    tok1: String,
    u1: Option<String>,
    tok2: String,
    u2: Option<String>,
)
    requires
        s.pending_target_url == Some(target),
    ensures
        ({
            let (s1, a1) = spec_callback_step(s, tok1, u1);
            let (s2, a2) = spec_callback_step(s1, tok2, u2);
            &&& a1 == (CallbackAction::Resume { target })
            &&& s1.pending_target_url is None
            &&& a2 == CallbackAction::PromptForTarget
        }),
{
}

/// Read the access token out of a token-exchange response. These endpoints
/// answer 200 OK on success, so any other status is a refused exchange; a
/// 200 response whose body does not carry the `access_token` string member
/// is missing the token, and otherwise the token is exactly that member.
pub fn token_from_response(status: u16, body: &str) -> (r: Result<String, AuthError>)
    ensures
        status != 200 ==> r == Err::<String, AuthError>(AuthError::ExchangeFailed),
        status == 200 ==> match document_text(body@, "access_token"@) {
            Some(token) => r matches Ok(t) && t@ == token,
            None => r == Err::<String, AuthError>(AuthError::MissingToken),
        },
{
    if status != 200 {
        return Err(AuthError::ExchangeFailed);
    }
    let parsed = match json_parse(body) {
        Ok(v) => v,
        Err(_) => {
            return Err(AuthError::MissingToken);
        },
    };
    let member = match json_get(&parsed, "access_token") {
        Some(v) => v,
        None => {
            return Err(AuthError::MissingToken);
        },
    };
    match json_str(member) {
        Some(token) => Ok(token),
        None => Err(AuthError::MissingToken),
    }
}

} // verus!
