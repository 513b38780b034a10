use readwise_autosave::bluesky::oauth::OAuthError;
use readwise_autosave::web::handlers::api::{update_settings, SettingsForm};
use readwise_autosave::web::handlers::auth::{
    callback, callback_outcome, login, login_outcome, login_submit, logout, show_callback_error,
    show_login_error, CallbackOutcome, CallbackParams, CallbackStep, LoginForm, LoginStep,
    TokenResponse,
};
use readwise_autosave::web::handlers::dashboard::settings;
use readwise_autosave::web::handlers::pages::{health, index};
use readwise_autosave::web::response::Response;

fn page_of(response: &Response) -> &str {
    match response {
        Response::Html(page) => page,
        other => panic!("no page: {:?}", other),
    }
}

fn params() -> CallbackParams {
    CallbackParams {
        code: Some("code1".to_string()),
        state: Some("state1".to_string()),
        error: None,
        error_description: None,
        iss: None,
    }
}

fn tokens(sub: Option<&str>) -> TokenResponse {
    TokenResponse {
        access_token: "access".to_string(),
        token_type: "DPoP".to_string(),
        refresh_token: Some("refresh".to_string()),
        scope: "atproto".to_string(),
        expires_in: 3600,
        sub: sub.map(|s| s.to_string()),
    }
}

#[test]
fn static_pages() {
    assert_eq!(health(), "ok");
    let page = index();
    assert!(page_of(&page).starts_with("<!DOCTYPE html>\n<html>\n<head>\n    <title>Readwise Autosave</title>"));
    assert!(page_of(&page).contains("<a href=\"/auth/login\" class=\"btn\">Connect with Bluesky</a>"));
    assert!(page_of(&page).contains("<h1>\u{1F4DA} Readwise Autosave</h1>"));
    assert!(page_of(&page).ends_with("</body>\n</html>"));
    assert!(page_of(&login()).contains("<form method=\"POST\" action=\"/auth/login\">"));
    assert!(page_of(&login()).contains("body { font-family: system-ui"));
    assert!(page_of(&settings()).contains("<form action=\"/api/settings\" method=\"POST\">"));
    assert_eq!(logout(), Response::Redirect("/".to_string()));
}

#[test]
fn error_pages_hold_their_messages() {
    let page = show_login_error("Something broke");
    assert!(page.contains("<div class=\"error\">Something broke</div>"));
    assert!(page.contains("body { font-family: system-ui"));
    assert!(page.starts_with("<!DOCTYPE html>"));
    let page = show_callback_error("Title", "Description");
    assert!(page.contains("<p class=\"error-title\">Title</p>\n        <p class=\"error-desc\">Description</p>"));
    assert!(page.ends_with("</body>\n</html>"));
}

#[test]
fn settings_need_a_token() {
    let mut form = SettingsForm { readwise_token: "  \t".to_string(), bookmark_sync: true, extract_links: false };
    assert_eq!(
        update_settings(&form),
        Response::Status { code: 400, body: "Readwise token is required".to_string() }
    );
    form.readwise_token = " tok ".to_string();
    assert_eq!(update_settings(&form), Response::Redirect("/dashboard?saved=true".to_string()));
}

#[test]
fn login_needs_a_handle() {
    match login_submit(&LoginForm { handle: "   ".to_string() }) {
        LoginStep::Respond(response) => {
            assert_eq!(page_of(&response), show_login_error("Please enter your Bluesky handle"))
        }
        other => panic!("unexpected {:?}", other),
    }
    assert_eq!(
        login_submit(&LoginForm { handle: "  alice.example \n".to_string() }),
        LoginStep::Initiate { handle: "alice.example".to_string() }
    );
}

#[test]
fn login_outcome_redirects_or_explains() {
    assert_eq!(
        login_outcome(Ok("https://pds.example/authorize?x=1".to_string())),
        Response::Redirect("https://pds.example/authorize?x=1".to_string())
    );
    let response = login_outcome(Err(OAuthError::InitFailed("boom".to_string())));
    assert_eq!(
        page_of(&response),
        show_login_error("Failed to start login: OAuth initialization failed: boom")
    );
}

#[test]
fn callback_checks_error_then_code_then_state() {
    let mut p = params();
    p.error = Some("access_denied".to_string());
    p.error_description = Some("User said no".to_string());
    p.code = None;
    match callback(p) {
        CallbackStep::Respond(r) => {
            assert_eq!(page_of(&r), show_callback_error("access_denied", "User said no"))
        }
        other => panic!("unexpected {:?}", other),
    }
    let mut p = params();
    p.error = Some("server_error".to_string());
    match callback(p) {
        CallbackStep::Respond(r) => assert_eq!(page_of(&r), show_callback_error("server_error", "")),
        other => panic!("unexpected {:?}", other),
    }
    let mut p = params();
    p.code = None;
    p.state = None;
    match callback(p) {
        CallbackStep::Respond(r) => assert_eq!(
            page_of(&r),
            show_callback_error("Missing Code", "No authorization code received")
        ),
        other => panic!("unexpected {:?}", other),
    }
    let mut p = params();
    p.state = None;
    match callback(p) {
        CallbackStep::Respond(r) => assert_eq!(
            page_of(&r),
            show_callback_error("Missing State", "No state parameter received")
        ),
        other => panic!("unexpected {:?}", other),
    }
    assert_eq!(
        callback(params()),
        CallbackStep::Complete { state: "state1".to_string(), code: "code1".to_string() }
    );
}

#[test]
fn callback_outcome_signs_in_or_explains() {
    assert_eq!(
        callback_outcome(Ok(tokens(Some("did:plc:u")))),
        CallbackOutcome::SignedIn {
            user_did: "did:plc:u".to_string(),
            access_token: "access".to_string(),
            refresh_token: Some("refresh".to_string()),
            location: "/dashboard".to_string(),
        }
    );
    for sub in [None, Some("")] {
        match callback_outcome(Ok(tokens(sub))) {
            CallbackOutcome::Respond(r) => assert_eq!(
                page_of(&r),
                show_callback_error("Invalid Response", "No user DID in token response")
            ),
            other => panic!("unexpected {:?}", other),
        }
    }
    match callback_outcome(Err(OAuthError::StateExpired)) {
        CallbackOutcome::Respond(r) => {
            assert_eq!(page_of(&r), show_callback_error("Login Failed", "State expired"))
        }
        other => panic!("unexpected {:?}", other),
    }
    match callback_outcome(Err(OAuthError::InvalidState)) {
        CallbackOutcome::Respond(r) => {
            assert_eq!(page_of(&r), show_callback_error("Login Failed", "Invalid state parameter"))
        }
        other => panic!("unexpected {:?}", other),
    }
}
