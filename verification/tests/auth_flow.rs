use mbzlists_resolvers::auth::{
    callback_step, create_step, login_step, token_from_response, AuthError, AuthSession,
    CallbackAction, CreateAction,
};

#[test]
fn callback_resumes_pending_target_once() {
    // Anonymous with pendingTargetURL="X": a successful callback resumes
    // "X" exactly once and clears it; a replayed callback only prompts.
    let mut session = AuthSession::anonymous();
    login_step(&mut session, Some(String::from("X")));
    assert_eq!(session.pending_target_url.as_deref(), Some("X"));

    let action = callback_step(&mut session, String::from("tok1"), None);
    match action {
        CallbackAction::Resume { target } => assert_eq!(target, "X"),
        CallbackAction::PromptForTarget => panic!("expected the pending target to be resumed"),
    }
    assert!(session.pending_target_url.is_none());
    assert_eq!(session.access_token.as_deref(), Some("tok1"));

    let replay = callback_step(&mut session, String::from("tok2"), None);
    assert!(matches!(replay, CallbackAction::PromptForTarget));
    assert!(session.pending_target_url.is_none());
}

#[test]
fn login_without_target_saves_nothing() {
    let mut session = AuthSession::anonymous();
    login_step(&mut session, None);
    assert!(session.pending_target_url.is_none());
    let action = callback_step(&mut session, String::from("tok"), None);
    assert!(matches!(action, CallbackAction::PromptForTarget));
}

#[test]
fn callback_stores_account_identifier() {
    let mut session = AuthSession::anonymous();
    callback_step(&mut session, String::from("tok"), Some(String::from("user9")));
    assert_eq!(session.user_id.as_deref(), Some("user9"));
}

#[test]
fn create_redirects_while_anonymous() {
    let session = AuthSession::anonymous();
    let action = create_step(&session, String::from("https://mbzlists.com/view/v1"), false);
    match action {
        CreateAction::RedirectToLogin { target } => {
            assert_eq!(target, "https://mbzlists.com/view/v1")
        }
        CreateAction::Run { .. } => panic!("expected a redirect to login"),
    }
}

#[test]
fn create_runs_with_stored_token() {
    let mut session = AuthSession::anonymous();
    callback_step(&mut session, String::from("tok"), None);
    let action = create_step(&session, String::from("T"), false);
    match action {
        CreateAction::Run { token, user_id, target } => {
            assert_eq!(token, "tok");
            assert!(user_id.is_none());
            assert_eq!(target, "T");
        }
        CreateAction::RedirectToLogin { .. } => panic!("expected the run to proceed"),
    }
}

#[test]
fn create_redirects_when_account_identifier_is_needed_and_missing() {
    let mut session = AuthSession::anonymous();
    callback_step(&mut session, String::from("tok"), None);
    let action = create_step(&session, String::from("T"), true);
    assert!(matches!(action, CreateAction::RedirectToLogin { .. }));
}

#[test]
fn create_runs_when_account_identifier_is_present() {
    let mut session = AuthSession::anonymous();
    callback_step(&mut session, String::from("tok"), Some(String::from("user9")));
    let action = create_step(&session, String::from("T"), true);
    match action {
        CreateAction::Run { token, user_id, target } => {
            assert_eq!(token, "tok");
            assert_eq!(user_id.as_deref(), Some("user9"));
            assert_eq!(target, "T");
        }
        CreateAction::RedirectToLogin { .. } => panic!("expected the run to proceed"),
    }
}

#[test]
fn token_is_read_from_exchange_response() {
    let body = "{\"access_token\":\"secret-token\",\"token_type\":\"Bearer\"}";
    let token = token_from_response(200, body).expect("a token");
    assert_eq!(token, "secret-token");
}

#[test]
fn refused_exchange_is_an_authorization_error() {
    let outcome = token_from_response(400, "{\"error\":\"invalid_grant\"}");
    assert!(matches!(outcome, Err(AuthError::ExchangeFailed)));
}

#[test]
fn exchange_response_without_token_is_missing_token() {
    assert!(matches!(
        token_from_response(200, "{\"token_type\":\"Bearer\"}"),
        Err(AuthError::MissingToken)
    ));
    assert!(matches!(
        token_from_response(200, "not json"),
        Err(AuthError::MissingToken)
    ));
    assert!(matches!(
        token_from_response(200, "{\"access_token\":17}"),
        Err(AuthError::MissingToken)
    ));
}
