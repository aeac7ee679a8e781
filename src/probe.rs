//! The probe protocol: an anonymous fetch of the login page, which yields
//! session cookies, then a credentialed login submission that carries them.
//!
//! `SaisClient` is a state machine. The caller hands it events (an invocation,
//! a response, a transport failure) and performs the action it returns. At
//! most one probe cycle runs at a time: an invocation during a cycle is
//! refused, so the session cookies of a cycle are never overwritten before its
//! login request has gone out and been answered.
use vstd::prelude::*;
use crate::text::{contains_text, decimal, signed_decimal, signed_text, text_contains, unsigned_text};

verus! {

/// The user agent sent with the login submission.
pub const USER_AGENT: &'static str = "Is UP SAIS down?/1.0";

/// Text that the portal shows when it rejects the credentials.
pub const INVALID_CREDENTIALS_MARKER: &'static str = "Your UP Email ID and/or Password are invalid.";

/// The fixed account used for the login attempt.
pub struct LoginDetails {
    pub timezone_offset: i32,
    pub userid: String,
    pub pwd: String,
    pub request_id: u64,
}

/// The portal to probe.
pub struct SaisConfig {
    /// Address of the login page, fetched and then posted to.
    pub login_url: String,
    /// Text that a page shows only after a successful login.
    pub login_success_string: String,
}

/// Where a probe cycle stands.
#[derive(Clone, Copy, Debug, PartialEq, Eq, Structural)]
pub enum Phase {
    /// No cycle is running.
    Idle,
    /// The anonymous fetch of the login page is under way.
    AwaitingPage,
    /// The login submission is under way.
    AwaitingLogin,
}

/// What a completed probe cycle found.
#[derive(Clone, Copy, Debug, PartialEq, Eq, Structural)]
pub enum ProbeOutcome {
    /// The login page could not be fetched at all.
    NetworkError,
    /// The login page answered with a status outside the success range.
    ServiceDown,
    /// The portal is up but the login did not succeed.
    ServiceUpLoginFailed,
    /// The portal is up and the login succeeded.
    ServiceUpLoginSucceeded,
}

/// Why a login response was judged as it was; kept for diagnostics.
#[derive(Clone, Copy, Debug, PartialEq, Eq, Structural)]
pub enum LoginFinding {
    /// The response holds the success marker.
    Succeeded,
    /// The response holds the invalid-credentials text and not the success marker.
    CredentialsRejected,
    /// The response holds neither.
    MarkerMissing,
}

/// A cycle that ended without an outcome.
#[derive(Clone, Copy, Debug, PartialEq, Eq, Structural)]
pub enum ProbeError {
    /// The portal was up, but the login submission did not complete.
    LoginIncomplete,
}

/// The login submission to send.
#[derive(Clone, Debug, PartialEq, Eq)]
pub struct LoginRequest {
    pub url: String,
    pub user_agent: String,
    /// Value of the `Cookie` header.
    pub cookie: String,
    /// Form fields, in order, to be sent form-encoded.
    pub form: Vec<(String, String)>,
}

/// What happened, as reported to the state machine.
#[derive(Clone, Debug, PartialEq, Eq)]
pub enum ProbeEvent {
    /// Someone asked for a probe.
    Invoked,
    /// The fetch of the login page failed in transport (DNS, connect, timeout).
    PageUnreachable,
    /// The login page answered.
    PageReceived { status: u16, set_cookies: Vec<String> },
    /// The login submission failed in transport, or its body could not be read.
    LoginUnreachable,
    /// The login submission answered with this body.
    LoginReceived { body: String },
}

/// What the caller is to do next.
#[derive(Clone, Debug, PartialEq, Eq)]
pub enum ProbeAction {
    /// Fetch this page without any special header.
    FetchPage { url: String },
    /// Send this login submission.
    SubmitLogin(LoginRequest),
    /// The cycle is over.
    Finish { outcome: ProbeOutcome, finding: Option<LoginFinding> },
    /// The cycle is over without an outcome.
    Fail(ProbeError),
    /// A cycle is already running; nothing was changed.
    Busy,
    /// The event does not belong to the current phase; nothing was changed.
    Ignored,
}

/// An account as plain values.
pub struct DetailsView {
    pub timezone_offset: i32,
    pub userid: Seq<char>,
    pub pwd: Seq<char>,
    pub request_id: u64,
}

/// A login submission as plain values.
pub struct RequestView {
    pub url: Seq<char>,
    pub user_agent: Seq<char>,
    pub cookie: Seq<char>,
    pub form: Seq<(Seq<char>, Seq<char>)>,
}

/// An event as plain values.
pub enum EventView {
    Invoked,
    PageUnreachable,
    PageReceived { status: u16, set_cookies: Seq<Seq<char>> },
    LoginUnreachable,
    LoginReceived { body: Seq<char> },
}

/// An action as plain values.
pub enum ActionView {
    FetchPage { url: Seq<char> },
    SubmitLogin(RequestView),
    Finish { outcome: ProbeOutcome, finding: Option<LoginFinding> },
    Fail(ProbeError),
    Busy,
    Ignored,
}

/// The state of a probe client.
pub struct ClientView {
    pub phase: Phase,
    pub cookies: Seq<char>,
    pub login_url: Seq<char>,
    pub success_marker: Seq<char>,
    pub details: DetailsView,
}

impl View for LoginDetails {
    type V = DetailsView;

    open spec fn view(&self) -> DetailsView {
        DetailsView {
            timezone_offset: self.timezone_offset,
            userid: self.userid@,
            pwd: self.pwd@,
            request_id: self.request_id,
        }
    }
}

/// Form fields as pairs of texts.
pub open spec fn form_view(form: Seq<(String, String)>) -> Seq<(Seq<char>, Seq<char>)> {
    form.map_values(|p: (String, String)| (p.0@, p.1@))
}

impl View for LoginRequest {
    type V = RequestView;

    open spec fn view(&self) -> RequestView {
        RequestView {
            url: self.url@,
            user_agent: self.user_agent@,
            cookie: self.cookie@,
            form: form_view(self.form@),
        }
    }
}

/// A list of strings as a list of texts.
pub open spec fn strings_view(v: Seq<String>) -> Seq<Seq<char>> {
    v.map_values(|s: String| s@)
}

impl View for ProbeEvent {
    type V = EventView;

    open spec fn view(&self) -> EventView {
        match self {
            ProbeEvent::Invoked => EventView::Invoked,
            ProbeEvent::PageUnreachable => EventView::PageUnreachable,
            ProbeEvent::PageReceived { status, set_cookies } => EventView::PageReceived {
                status: *status,
                set_cookies: strings_view(set_cookies@),
            },
            ProbeEvent::LoginUnreachable => EventView::LoginUnreachable,
            ProbeEvent::LoginReceived { body } => EventView::LoginReceived { body: body@ },
        }
    }
}

impl View for ProbeAction {
    type V = ActionView;

    open spec fn view(&self) -> ActionView {
        match self {
            ProbeAction::FetchPage { url } => ActionView::FetchPage { url: url@ },
            ProbeAction::SubmitLogin(req) => ActionView::SubmitLogin(req@),
            ProbeAction::Finish { outcome, finding } => ActionView::Finish {
                outcome: *outcome,
                finding: *finding,
            },
            ProbeAction::Fail(e) => ActionView::Fail(*e),
            ProbeAction::Busy => ActionView::Busy,
            ProbeAction::Ignored => ActionView::Ignored,
        }
    }
}

/// A status code in the success range.
pub open spec fn is_success_status(status: u16) -> bool {
    200 <= status < 300
}

/// The cookie string built from `Set-Cookie` values: each value in header
/// order, each one preceded by a semicolon.
pub open spec fn cookie_string(values: Seq<Seq<char>>) -> Seq<char>
    decreases values.len(),
{
    if values.len() == 0 {
        Seq::empty()
    } else {
        cookie_string(values.drop_last()) + seq![';'] + values.last()
    }
}

/// The login form for an account, in the order it is sent.
pub open spec fn login_form(d: DetailsView) -> Seq<(Seq<char>, Seq<char>)> {
    seq![
        ("timezoneOffset"@, signed_decimal(d.timezone_offset as int)),
        ("userid"@, d.userid),
        ("pwd"@, d.pwd),
        ("request_id"@, decimal(d.request_id as nat)),
    ]
}

/// The login submission for a page address, a cookie string and an account.
pub open spec fn login_request(url: Seq<char>, cookies: Seq<char>, d: DetailsView) -> RequestView {
    RequestView { url, user_agent: USER_AGENT@, cookie: cookies, form: login_form(d) }
}

/// How a login response body is judged: the success marker wins over the
/// invalid-credentials text.
pub open spec fn login_finding(body: Seq<char>, success_marker: Seq<char>) -> LoginFinding {
    if text_contains(body, success_marker) {
        LoginFinding::Succeeded
    } else if text_contains(body, INVALID_CREDENTIALS_MARKER@) {
        LoginFinding::CredentialsRejected
    } else {
        LoginFinding::MarkerMissing
    }
}

/// The outcome reported for a login finding.
pub open spec fn finding_outcome(v: LoginFinding) -> ProbeOutcome {
    match v {
        LoginFinding::Succeeded => ProbeOutcome::ServiceUpLoginSucceeded,
        _ => ProbeOutcome::ServiceUpLoginFailed,
    }
}

/// The probe protocol: the next state and the action for a state and an event.
pub open spec fn transition(s: ClientView, e: EventView) -> (ClientView, ActionView) {
    match s.phase {
        Phase::Idle => match e {
            EventView::Invoked => (
                ClientView { phase: Phase::AwaitingPage, cookies: Seq::empty(), ..s },
                ActionView::FetchPage { url: s.login_url },
            ),
            _ => (s, ActionView::Ignored),
        },
        Phase::AwaitingPage => match e {
            EventView::Invoked => (s, ActionView::Busy),
            EventView::PageUnreachable => (
                ClientView { phase: Phase::Idle, ..s },
                ActionView::Finish { outcome: ProbeOutcome::NetworkError, finding: None },
            ),
            EventView::PageReceived { status, set_cookies } => {
                let cookies = cookie_string(set_cookies);
                if is_success_status(status) {
                    (
                        ClientView { phase: Phase::AwaitingLogin, cookies, ..s },
                        ActionView::SubmitLogin(login_request(s.login_url, cookies, s.details)),
                    )
                } else {
                    (
                        ClientView { phase: Phase::Idle, cookies, ..s },
                        ActionView::Finish { outcome: ProbeOutcome::ServiceDown, finding: None },
                    )
                }
            },
            _ => (s, ActionView::Ignored),
        },
        Phase::AwaitingLogin => match e {
            EventView::Invoked => (s, ActionView::Busy),
            EventView::LoginUnreachable => (
                ClientView { phase: Phase::Idle, ..s },
                ActionView::Fail(ProbeError::LoginIncomplete),
            ),
            EventView::LoginReceived { body } => {
                let v = login_finding(body, s.success_marker);
                (
                    ClientView { phase: Phase::Idle, ..s },
                    ActionView::Finish { outcome: finding_outcome(v), finding: Some(v) },
                )
            },
            _ => (s, ActionView::Ignored),
        },
    }
}

/// Whether a status code is in the success range (200 to 299).
pub fn status_is_success(status: u16) -> (r: bool)
    ensures
        r == is_success_status(status),
{
    200 <= status && status < 300
}

/// Appends the cookie string of `values` to `cookies`.
pub fn append_cookies(cookies: &mut String, values: &Vec<String>)
    ensures
        final(cookies)@ == old(cookies)@ + cookie_string(strings_view(values@)),
{
    let mut i: usize = 0;
    while i < values.len()
        invariant
            i <= values@.len(),
            cookies@ == old(cookies)@ + cookie_string(strings_view(values@.take(i as int))),
        decreases values@.len() - i,
    {
        proof {
            reveal_strlit(";");
        }
        cookies.append(";");
        cookies.append(values[i].as_str());
        proof {
            let next = strings_view(values@.take(i + 1));
            assert(next.drop_last() =~= strings_view(values@.take(i as int)));
            assert(next.last() == values@[i as int]@);
        }
        i = i + 1;
    }
    assert(values@.take(i as int) =~= values@);
}

/// The login form for an account: time zone offset, user id, password and
/// request id, with the numbers in decimal.
pub fn build_login_form(details: &LoginDetails) -> (r: Vec<(String, String)>)
    ensures
        form_view(r@) == login_form(details@),
{
    let mut form: Vec<(String, String)> = Vec::new();
    form.push((String::from_str("timezoneOffset"), signed_text(details.timezone_offset)));
    form.push((String::from_str("userid"), details.userid.clone()));
    form.push((String::from_str("pwd"), details.pwd.clone()));
    form.push((String::from_str("request_id"), unsigned_text(details.request_id)));
    assert(form_view(form@) =~= login_form(details@));
    form
}

/// Judges a login response body.
pub fn classify_login_body(body: &str, success_marker: &str) -> (r: LoginFinding)
    ensures
        r == login_finding(body@, success_marker@),
{
    if contains_text(body, success_marker) {
        LoginFinding::Succeeded
    } else if contains_text(body, INVALID_CREDENTIALS_MARKER) {
        LoginFinding::CredentialsRejected
    } else {
        LoginFinding::MarkerMissing
    }
}

impl LoginFinding {
    /// The outcome reported for this finding.
    pub fn outcome(&self) -> (r: ProbeOutcome)
        ensures
            r == finding_outcome(*self),
    {
        match self {
            LoginFinding::Succeeded => ProbeOutcome::ServiceUpLoginSucceeded,
            _ => ProbeOutcome::ServiceUpLoginFailed,
        }
    }
}

/// A probe client: the portal, the account, and the session of the current cycle.
pub struct SaisClient {
    config: SaisConfig,
    login: LoginDetails,
    cookies: String,
    phase: Phase,
}

impl View for SaisClient {
    type V = ClientView;

    closed spec fn view(&self) -> ClientView {
        ClientView {
            phase: self.phase,
            cookies: self.cookies@,
            login_url: self.config.login_url@,
            success_marker: self.config.login_success_string@,
            details: self.login@,
        }
    }
}

impl SaisClient {
    /// A client that is idle and holds no cookies.
    pub fn new(config: SaisConfig, login: LoginDetails) -> (r: SaisClient)
        ensures
            r@.phase == Phase::Idle,
            r@.cookies == Seq::<char>::empty(),
            r@.login_url == config.login_url@,
            r@.success_marker == config.login_success_string@,
            r@.details == login@,
    {
        SaisClient { config, login, cookies: String::new(), phase: Phase::Idle }
    }

    /// The session cookie string.
    pub fn cookies(&self) -> (r: &str)
        ensures
            r@ == self@.cookies,
    {
        self.cookies.as_str()
    }

    /// Where the current cycle stands.
    pub fn phase(&self) -> (r: Phase)
        ensures
            r == self@.phase,
    {
        self.phase
    }

    /// The portal that this client probes.
    pub fn config(&self) -> (r: &SaisConfig)
        ensures
            r.login_url@ == self@.login_url,
            r.login_success_string@ == self@.success_marker,
    {
        &self.config
    }

    /// The account that this client logs in with.
    pub fn login_details(&self) -> (r: &LoginDetails)
        ensures
            r@ == self@.details,
    {
        &self.login
    }

    /// Takes one event of a probe cycle and says what to do next.
    pub fn handle(&mut self, event: ProbeEvent) -> (r: ProbeAction)
        ensures
            (final(self)@, r@) == transition(old(self)@, event@),
    {
        match self.phase {
            Phase::Idle => match event {
                ProbeEvent::Invoked => {
                    self.cookies = String::new();
                    self.phase = Phase::AwaitingPage;
                    ProbeAction::FetchPage { url: self.config.login_url.clone() }
                },
                _ => ProbeAction::Ignored,
            },
            Phase::AwaitingPage => match event {
                ProbeEvent::Invoked => ProbeAction::Busy,
                ProbeEvent::PageUnreachable => {
                    self.phase = Phase::Idle;
                    ProbeAction::Finish { outcome: ProbeOutcome::NetworkError, finding: None }
                },
                ProbeEvent::PageReceived { status, set_cookies } => {
                    let mut cookies = String::new();
                    append_cookies(&mut cookies, &set_cookies);
                    assert(cookies@ =~= cookie_string(strings_view(set_cookies@)));
                    self.cookies = cookies;
                    if status_is_success(status) {
                        self.phase = Phase::AwaitingLogin;
                        let req = LoginRequest {
                            url: self.config.login_url.clone(),
                            user_agent: String::from_str(USER_AGENT),
                            cookie: self.cookies.clone(),
                            form: build_login_form(&self.login),
                        };
                        ProbeAction::SubmitLogin(req)
                    } else {
                        self.phase = Phase::Idle;
                        ProbeAction::Finish { outcome: ProbeOutcome::ServiceDown, finding: None }
                    }
                },
                _ => ProbeAction::Ignored,
            },
            Phase::AwaitingLogin => match event {
                ProbeEvent::Invoked => ProbeAction::Busy,
                ProbeEvent::LoginUnreachable => {
                    self.phase = Phase::Idle;
                    ProbeAction::Fail(ProbeError::LoginIncomplete)
                },
                ProbeEvent::LoginReceived { body } => {
                    let finding = classify_login_body(body.as_str(), self.config.login_success_string.as_str());
                    self.phase = Phase::Idle;
                    ProbeAction::Finish { outcome: finding.outcome(), finding: Some(finding) }
                },
                _ => ProbeAction::Ignored,
            },
        }
    }
}

/// A cycle whose page fetch fails in transport reports a network error, holds
/// no cookies, and sends no login submission: it is over, and a login event
/// that comes after it changes nothing.
pub proof fn lemma_unreachable_page_is_network_error(s: ClientView, e: EventView)
    requires
        s.phase == Phase::Idle,
        e is LoginUnreachable || e is LoginReceived,
    ensures
        ({
            let (s1, a1) = transition(s, EventView::Invoked);
            let (s2, a2) = transition(s1, EventView::PageUnreachable);
            &&& a1 == ActionView::FetchPage { url: s.login_url }
            &&& a2 == ActionView::Finish { outcome: ProbeOutcome::NetworkError, finding: None }
            &&& s2.cookies == Seq::<char>::empty()
            &&& s2.phase == Phase::Idle
            &&& transition(s2, e) == (s2, ActionView::Ignored)
        }),
{
}

/// A login page that answers with a status outside the success range means
/// the service is down, and no login submission follows.
pub proof fn lemma_failed_status_is_service_down(s: ClientView, status: u16, set_cookies: Seq<Seq<char>>)
    requires
        s.phase == Phase::AwaitingPage,
        !is_success_status(status),
    ensures
        ({
            let (s1, a1) = transition(s, EventView::PageReceived { status, set_cookies });
            &&& a1 == ActionView::Finish { outcome: ProbeOutcome::ServiceDown, finding: None }
            &&& s1.phase == Phase::Idle
        }),
{
}

/// The cookie string of headers read in two batches is the cookie string of
/// the first batch followed by that of the second: values keep header order.
pub proof fn lemma_cookie_string_concat(x: Seq<Seq<char>>, y: Seq<Seq<char>>)
    ensures
        cookie_string(x + y) == cookie_string(x) + cookie_string(y),
    decreases y.len(),
{
    if y.len() == 0 {
        assert(x + y =~= x);
        assert(cookie_string(x) + cookie_string(y) =~= cookie_string(x));
    } else {
        assert((x + y).drop_last() =~= x + y.drop_last());
        lemma_cookie_string_concat(x, y.drop_last());
        assert(cookie_string(x + y) =~= cookie_string(x) + cookie_string(y));
    }
}

/// A login page that answers with success hands on exactly the cookies it set
/// to the login submission.
pub proof fn lemma_login_carries_page_cookies(s: ClientView, status: u16, set_cookies: Seq<Seq<char>>)
    requires
        s.phase == Phase::AwaitingPage,
        is_success_status(status),
    ensures
        ({
            let (s1, a1) = transition(s, EventView::PageReceived { status, set_cookies });
            &&& s1.phase == Phase::AwaitingLogin
            &&& s1.cookies == cookie_string(set_cookies)
            &&& a1 == ActionView::SubmitLogin(login_request(s.login_url, cookie_string(set_cookies), s.details))
        }),
{
}

/// A login response that holds the success marker is a successful login,
/// whether or not it also holds the invalid-credentials text.
pub proof fn lemma_success_marker_wins(s: ClientView, body: Seq<char>)
    requires
        s.phase == Phase::AwaitingLogin,
        text_contains(body, s.success_marker),
    ensures
        transition(s, EventView::LoginReceived { body }).1 == (ActionView::Finish {
            outcome: ProbeOutcome::ServiceUpLoginSucceeded,
            finding: Some(LoginFinding::Succeeded),
        }),
{
}

/// A login response that holds the invalid-credentials text and not the
/// success marker is a failed login.
pub proof fn lemma_rejected_credentials_fail(s: ClientView, body: Seq<char>)
    requires
        s.phase == Phase::AwaitingLogin,
        !text_contains(body, s.success_marker),
        text_contains(body, INVALID_CREDENTIALS_MARKER@),
    ensures
        transition(s, EventView::LoginReceived { body }).1 == (ActionView::Finish {
            outcome: ProbeOutcome::ServiceUpLoginFailed,
            finding: Some(LoginFinding::CredentialsRejected),
        }),
{
}

/// A login response that holds neither marker is a failed login.
pub proof fn lemma_missing_marker_fails(s: ClientView, body: Seq<char>)
    requires
        s.phase == Phase::AwaitingLogin,
        !text_contains(body, s.success_marker),
        !text_contains(body, INVALID_CREDENTIALS_MARKER@),
    ensures
        transition(s, EventView::LoginReceived { body }).1 == (ActionView::Finish {
            outcome: ProbeOutcome::ServiceUpLoginFailed,
            finding: Some(LoginFinding::MarkerMissing),
        }),
{
}

/// Cycles never interleave their cookie writes. While a cycle runs, a new
/// invocation is refused and changes nothing; the cookie string is reset only
/// when a cycle starts from idle, and written only when that cycle's login
/// page arrives. Once the login submission is out, nothing changes the
/// cookies until the cycle is over.
pub proof fn lemma_no_interleaved_cookie_writes(s: ClientView, e: EventView)
    ensures
        s.phase != Phase::Idle && e is Invoked ==> transition(s, e) == (s, ActionView::Busy),
        transition(s, e).0.cookies != s.cookies ==> {
            ||| s.phase == Phase::Idle && e is Invoked
            ||| s.phase == Phase::AwaitingPage && e is PageReceived
        },
        s.phase == Phase::AwaitingLogin ==> transition(s, e).0.cookies == s.cookies,
{
}

} // verus!
