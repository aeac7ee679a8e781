use sais_probe::probe::{
    append_cookies, build_login_form, classify_login_body, status_is_success, LoginDetails,
    LoginRequest, LoginFinding, Phase, ProbeAction, ProbeError, ProbeEvent, ProbeOutcome,
    SaisClient, SaisConfig, INVALID_CREDENTIALS_MARKER, USER_AGENT,
};

const URL: &str = "https://portal.example.edu/login";

fn client(marker: &str) -> SaisClient {
    SaisClient::new(
        SaisConfig { login_url: URL.to_string(), login_success_string: marker.to_string() },
        LoginDetails {
            timezone_offset: -480,
            userid: "student".to_string(),
            pwd: "SECRET-REDACTED".to_string(),
            request_id: 12345,
        },
    )
}

fn expected_form() -> Vec<(String, String)> {
    vec![
        ("timezoneOffset".to_string(), "-480".to_string()),
        ("userid".to_string(), "student".to_string()),
        ("pwd".to_string(), "SECRET-REDACTED".to_string()),
        ("request_id".to_string(), "12345".to_string()),
    ]
}

fn page(status: u16, cookies: &[&str]) -> ProbeEvent {
    ProbeEvent::PageReceived {
        status,
        set_cookies: cookies.iter().map(|c| c.to_string()).collect(),
    }
}

fn body(text: &str) -> ProbeEvent {
    ProbeEvent::LoginReceived { body: text.to_string() }
}

/// Runs a cycle up to the login submission and returns the client.
fn up_to_login(marker: &str, cookies: &[&str]) -> SaisClient {
    let mut c = client(marker);
    c.handle(ProbeEvent::Invoked);
    let action = c.handle(page(200, cookies));
    assert!(matches!(action, ProbeAction::SubmitLogin(_)));
    c
}

#[test]
fn new_client_is_idle_and_empty() {
    let c = client("LOGIN_OK");
    assert_eq!(c.phase(), Phase::Idle);
    assert_eq!(c.cookies(), "");
    assert_eq!(c.config().login_url, URL);
    assert_eq!(c.login_details().request_id, 12345);
}

#[test]
fn invocation_fetches_login_page() {
    let mut c = client("LOGIN_OK");
    let action = c.handle(ProbeEvent::Invoked);
    assert_eq!(action, ProbeAction::FetchPage { url: URL.to_string() });
    assert_eq!(c.phase(), Phase::AwaitingPage);
}

#[test]
fn unreachable_page_is_network_error_without_cookies() {
    let mut c = client("LOGIN_OK");
    c.handle(ProbeEvent::Invoked);
    let action = c.handle(ProbeEvent::PageUnreachable);
    assert_eq!(action, ProbeAction::Finish { outcome: ProbeOutcome::NetworkError, finding: None });
    assert_eq!(c.cookies(), "");
    assert_eq!(c.phase(), Phase::Idle);
}

#[test]
fn unreachable_page_discards_cookies_of_earlier_cycle() {
    let mut c = up_to_login("LOGIN_OK", &["sid=old"]);
    c.handle(body("LOGIN_OK"));
    assert_eq!(c.cookies(), ";sid=old");
    c.handle(ProbeEvent::Invoked);
    let action = c.handle(ProbeEvent::PageUnreachable);
    assert_eq!(action, ProbeAction::Finish { outcome: ProbeOutcome::NetworkError, finding: None });
    assert_eq!(c.cookies(), "");
}

#[test]
fn timeout_on_page_sends_no_login() {
    let mut c = client("LOGIN_OK");
    assert!(matches!(c.handle(ProbeEvent::Invoked), ProbeAction::FetchPage { .. }));
    let action = c.handle(ProbeEvent::PageUnreachable);
    assert_eq!(action, ProbeAction::Finish { outcome: ProbeOutcome::NetworkError, finding: None });
    assert_eq!(c.handle(body("LOGIN_OK")), ProbeAction::Ignored);
    assert_eq!(c.handle(ProbeEvent::LoginUnreachable), ProbeAction::Ignored);
    assert_eq!(c.phase(), Phase::Idle);
}

#[test]
fn failed_status_is_service_down() {
    for status in [199u16, 300, 302, 404, 500, 503] {
        let mut c = client("LOGIN_OK");
        c.handle(ProbeEvent::Invoked);
        let action = c.handle(page(status, &["sid=abc"]));
        assert_eq!(action, ProbeAction::Finish { outcome: ProbeOutcome::ServiceDown, finding: None });
        assert_eq!(c.phase(), Phase::Idle);
        assert_eq!(c.handle(body("LOGIN_OK")), ProbeAction::Ignored);
    }
}

#[test]
fn success_range_bounds() {
    assert!(status_is_success(200));
    assert!(status_is_success(204));
    assert!(status_is_success(299));
    assert!(!status_is_success(199));
    assert!(!status_is_success(300));
    assert!(!status_is_success(0));
    assert!(!status_is_success(u16::MAX));
}

#[test]
fn two_cookies_are_joined_in_header_order() {
    let c = up_to_login("LOGIN_OK", &["a=1", "b=2"]);
    assert_eq!(c.cookies(), ";a=1;b=2");
}

#[test]
fn append_cookies_keeps_existing_text() {
    let mut s = "x".to_string();
    append_cookies(&mut s, &vec!["a=1".to_string(), "b=2; Path=/".to_string()]);
    assert_eq!(s, "x;a=1;b=2; Path=/");
    let mut t = String::new();
    append_cookies(&mut t, &Vec::new());
    assert_eq!(t, "");
}

#[test]
fn page_without_cookies_gives_empty_cookie_header() {
    let mut c = client("LOGIN_OK");
    c.handle(ProbeEvent::Invoked);
    match c.handle(page(200, &[])) {
        ProbeAction::SubmitLogin(req) => assert_eq!(req.cookie, ""),
        other => panic!("unexpected action {:?}", other),
    }
}

#[test]
fn success_marker_wins_over_invalid_credentials() {
    let mut c = up_to_login("LOGIN_OK", &["sid=abc"]);
    let text = format!("{} ... LOGIN_OK", INVALID_CREDENTIALS_MARKER);
    let action = c.handle(body(&text));
    assert_eq!(
        action,
        ProbeAction::Finish {
            outcome: ProbeOutcome::ServiceUpLoginSucceeded,
            finding: Some(LoginFinding::Succeeded),
        }
    );
}

#[test]
fn invalid_credentials_is_login_failure() {
    let mut c = up_to_login("LOGIN_OK", &["sid=abc"]);
    let action = c.handle(body("<p>Your UP Email ID and/or Password are invalid.</p>"));
    assert_eq!(
        action,
        ProbeAction::Finish {
            outcome: ProbeOutcome::ServiceUpLoginFailed,
            finding: Some(LoginFinding::CredentialsRejected),
        }
    );
}

#[test]
fn missing_markers_is_login_failure() {
    let mut c = up_to_login("LOGIN_OK", &["sid=abc"]);
    let action = c.handle(body("<html>maintenance</html>"));
    assert_eq!(
        action,
        ProbeAction::Finish {
            outcome: ProbeOutcome::ServiceUpLoginFailed,
            finding: Some(LoginFinding::MarkerMissing),
        }
    );
    assert_eq!(c.phase(), Phase::Idle);
}

#[test]
fn classify_bodies() {
    assert_eq!(classify_login_body("xxLOGIN_OKxx", "LOGIN_OK"), LoginFinding::Succeeded);
    assert_eq!(classify_login_body("LOGIN_O", "LOGIN_OK"), LoginFinding::MarkerMissing);
    assert_eq!(classify_login_body("", "LOGIN_OK"), LoginFinding::MarkerMissing);
    assert_eq!(classify_login_body("anything", ""), LoginFinding::Succeeded);
    assert_eq!(
        classify_login_body("Your UP Email ID and/or Password are invalid", "LOGIN_OK"),
        LoginFinding::MarkerMissing
    );
    assert_eq!(LoginFinding::Succeeded.outcome(), ProbeOutcome::ServiceUpLoginSucceeded);
    assert_eq!(LoginFinding::CredentialsRejected.outcome(), ProbeOutcome::ServiceUpLoginFailed);
    assert_eq!(LoginFinding::MarkerMissing.outcome(), ProbeOutcome::ServiceUpLoginFailed);
}

#[test]
fn login_transport_failure_is_an_error() {
    let mut c = up_to_login("LOGIN_OK", &["sid=abc"]);
    let action = c.handle(ProbeEvent::LoginUnreachable);
    assert_eq!(action, ProbeAction::Fail(ProbeError::LoginIncomplete));
    assert_eq!(c.phase(), Phase::Idle);
}

#[test]
fn second_invocation_waits_for_running_cycle() {
    let mut c = client("LOGIN_OK");
    c.handle(ProbeEvent::Invoked);
    assert_eq!(c.handle(ProbeEvent::Invoked), ProbeAction::Busy);
    assert_eq!(c.phase(), Phase::AwaitingPage);
    c.handle(page(200, &["sid=abc"]));
    assert_eq!(c.handle(ProbeEvent::Invoked), ProbeAction::Busy);
    assert_eq!(c.cookies(), ";sid=abc");
    assert_eq!(c.phase(), Phase::AwaitingLogin);
    c.handle(body("LOGIN_OK"));
    assert!(matches!(c.handle(ProbeEvent::Invoked), ProbeAction::FetchPage { .. }));
    assert_eq!(c.cookies(), "");
}

#[test]
fn events_out_of_phase_are_ignored() {
    let mut c = client("LOGIN_OK");
    assert_eq!(c.handle(ProbeEvent::PageUnreachable), ProbeAction::Ignored);
    assert_eq!(c.handle(page(200, &["sid=abc"])), ProbeAction::Ignored);
    assert_eq!(c.cookies(), "");
    c.handle(ProbeEvent::Invoked);
    assert_eq!(c.handle(body("LOGIN_OK")), ProbeAction::Ignored);
    assert_eq!(c.phase(), Phase::AwaitingPage);
}

#[test]
fn end_to_end_login_success() {
    let mut c = client("LOGIN_OK");
    assert_eq!(c.handle(ProbeEvent::Invoked), ProbeAction::FetchPage { url: URL.to_string() });
    let action = c.handle(page(200, &["sid=abc"]));
    assert_eq!(
        action,
        ProbeAction::SubmitLogin(LoginRequest {
            url: URL.to_string(),
            user_agent: USER_AGENT.to_string(),
            cookie: ";sid=abc".to_string(),
            form: expected_form(),
        })
    );
    let action = c.handle(body("...LOGIN_OK..."));
    assert_eq!(
        action,
        ProbeAction::Finish {
            outcome: ProbeOutcome::ServiceUpLoginSucceeded,
            finding: Some(LoginFinding::Succeeded),
        }
    );
}

#[test]
fn login_form_fields() {
    let d = LoginDetails {
        timezone_offset: i32::MIN,
        userid: "u".to_string(),
        pwd: "p".to_string(),
        request_id: u64::MAX,
    };
    let form = build_login_form(&d);
    assert_eq!(form[0], ("timezoneOffset".to_string(), "-2147483648".to_string()));
    assert_eq!(form[3], ("request_id".to_string(), "18446744073709551615".to_string()));
    assert_eq!(USER_AGENT, "Is UP SAIS down?/1.0");
}
