//! The reply to a probe request: the time of the probe on a clock eight hours
//! east of UTC, a status message, and an optional decoration for the status.
use vstd::prelude::*;
use chrono::Timelike;
use crate::probe::ProbeOutcome;
use crate::text::{push_two_digits, two_digits};

verus! {

/// Offset of the clock shown in replies, in seconds east of UTC.
pub const CLOCK_OFFSET_SECS: i32 = 28800;

/// The last second of the year 9999, as a Unix timestamp.
pub const LAST_TIMESTAMP: i64 = 253402300799;

/// The second of the day shown at `offset` seconds east of UTC.
pub open spec fn local_second_of_day(timestamp: int, offset: int) -> int {
    (timestamp + offset) % 86400
}

/// Relies on chrono's `FixedOffset::east_opt`, `DateTime::from_timestamp`,
/// `DateTime::with_timezone` and `Timelike`: hour, minute and second of a Unix
/// timestamp on a clock `offset` seconds east of UTC. `from_timestamp` gives
/// `None` only outside chrono's date range, which holds the years 1 to 9999.
#[verifier::external_body]
fn clock_at(timestamp: i64, offset: i32) -> (r: Option<(u32, u32, u32)>)
    requires
        -86400 < offset < 86400,
    ensures
        r matches Some((h, m, sec)) ==> {
            let t = local_second_of_day(timestamp as int, offset as int);
            &&& h == t / 3600
            &&& m == t % 3600 / 60
            &&& sec == t % 60
        },
        0 <= timestamp <= LAST_TIMESTAMP ==> r is Some,
{
    let zone = chrono::FixedOffset::east_opt(offset)?;
    match chrono::DateTime::from_timestamp(timestamp, 0) {
        Some(t) => {
            let local = t.with_timezone(&zone);
            Some((local.hour(), local.minute(), local.second()))
        },
        None => None,
    }
}

/// `HH:MM:SS` for a second of the day.
pub open spec fn hms_text(t: int) -> Seq<char> {
    two_digits((t / 3600) as nat) + seq![':'] + two_digits((t % 3600 / 60) as nat) + seq![':']
        + two_digits((t % 60) as nat)
}

/// The time of a Unix timestamp as `HH:MM:SS`, eight hours east of UTC.
pub open spec fn clock_text_of(timestamp: int) -> Seq<char> {
    hms_text(local_second_of_day(timestamp, CLOCK_OFFSET_SECS as int))
}

/// The time of a Unix timestamp as `HH:MM:SS`, eight hours east of UTC;
/// `None` only where the date library cannot represent the timestamp.
pub fn clock_text(timestamp: i64) -> (r: Option<String>)
    ensures
        r matches Some(text) ==> text@ == clock_text_of(timestamp as int),
        0 <= timestamp <= LAST_TIMESTAMP ==> r is Some,
{
    match clock_at(timestamp, CLOCK_OFFSET_SECS) {
        Some((h, m, sec)) => {
            proof {
                reveal_strlit(":");
            }
            let mut out = String::new();
            push_two_digits(&mut out, h);
            out.append(":");
            push_two_digits(&mut out, m);
            out.append(":");
            push_two_digits(&mut out, sec);
            assert(out@ =~= clock_text_of(timestamp as int));
            Some(out)
        },
        None => None,
    }
}

/// The statuses that a reply can be decorated for.
#[derive(Clone, Copy, Debug, PartialEq, Eq, Structural)]
pub enum StatusTag {
    LoginOk,
    LoginFail,
    StatusCodeFail,
    ResponseFail,
}

/// The name under which a status's decoration is configured.
pub open spec fn tag_name(tag: StatusTag) -> Seq<char> {
    match tag {
        StatusTag::LoginOk => "login_ok"@,
        StatusTag::LoginFail => "login_fail"@,
        StatusTag::StatusCodeFail => "status_code_fail"@,
        StatusTag::ResponseFail => "response_fail"@,
    }
}

/// The status that a name stands for, if any.
pub open spec fn tag_named(name: Seq<char>) -> Option<StatusTag> {
    if name == "login_ok"@ {
        Some(StatusTag::LoginOk)
    } else if name == "login_fail"@ {
        Some(StatusTag::LoginFail)
    } else if name == "status_code_fail"@ {
        Some(StatusTag::StatusCodeFail)
    } else if name == "response_fail"@ {
        Some(StatusTag::ResponseFail)
    } else {
        None
    }
}

impl StatusTag {
    /// The name under which this status's decoration is configured.
    pub fn name(&self) -> (r: &'static str)
        ensures
            r@ == tag_name(*self),
    {
        match self {
            StatusTag::LoginOk => "login_ok",
            StatusTag::LoginFail => "login_fail",
            StatusTag::StatusCodeFail => "status_code_fail",
            StatusTag::ResponseFail => "response_fail",
        }
    }

    /// The status that a configured name stands for.
    pub fn from_name(name: &String) -> (r: Option<StatusTag>)
        ensures
            r == tag_named(name@),
    {
        if String::from_str("login_ok") == *name {
            Some(StatusTag::LoginOk)
        } else if String::from_str("login_fail") == *name {
            Some(StatusTag::LoginFail)
        } else if String::from_str("status_code_fail") == *name {
            Some(StatusTag::StatusCodeFail)
        } else if String::from_str("response_fail") == *name {
            Some(StatusTag::ResponseFail)
        } else {
            None
        }
    }
}

/// The status that a reply for an outcome is decorated for.
pub open spec fn outcome_tag(outcome: ProbeOutcome) -> StatusTag {
    match outcome {
        ProbeOutcome::NetworkError => StatusTag::ResponseFail,
        ProbeOutcome::ServiceDown => StatusTag::StatusCodeFail,
        ProbeOutcome::ServiceUpLoginFailed => StatusTag::LoginFail,
        ProbeOutcome::ServiceUpLoginSucceeded => StatusTag::LoginOk,
    }
}

/// The status message for an outcome.
pub open spec fn outcome_message(outcome: ProbeOutcome) -> Seq<char> {
    match outcome {
        ProbeOutcome::NetworkError => "dili na gyud muload "@,
        ProbeOutcome::ServiceDown => "UP SAIS is down... "@,
        ProbeOutcome::ServiceUpLoginFailed => "UP SAIS is up, but there are login problems. "@,
        ProbeOutcome::ServiceUpLoginSucceeded => "UP SAIS is up! "@,
    }
}

/// The status that a reply for an outcome is decorated for.
pub fn tag_for(outcome: ProbeOutcome) -> (r: StatusTag)
    ensures
        r == outcome_tag(outcome),
{
    match outcome {
        ProbeOutcome::NetworkError => StatusTag::ResponseFail,
        ProbeOutcome::ServiceDown => StatusTag::StatusCodeFail,
        ProbeOutcome::ServiceUpLoginFailed => StatusTag::LoginFail,
        ProbeOutcome::ServiceUpLoginSucceeded => StatusTag::LoginOk,
    }
}

/// The status message for an outcome.
pub fn message_for(outcome: ProbeOutcome) -> (r: &'static str)
    ensures
        r@ == outcome_message(outcome),
{
    match outcome {
        ProbeOutcome::NetworkError => "dili na gyud muload ",
        ProbeOutcome::ServiceDown => "UP SAIS is down... ",
        ProbeOutcome::ServiceUpLoginFailed => "UP SAIS is up, but there are login problems. ",
        ProbeOutcome::ServiceUpLoginSucceeded => "UP SAIS is up! ",
    }
}

/// Decorations for the statuses, each shown at the end of a reply when present.
pub struct Decorations {
    login_ok: Option<String>,
    login_fail: Option<String>,
    status_code_fail: Option<String>,
    response_fail: Option<String>,
}

pub open spec fn opt_view(o: Option<String>) -> Option<Seq<char>> {
    match o {
        Some(s) => Some(s@),
        None => None,
    }
}

impl Decorations {
    /// The decoration held for a status.
    pub closed spec fn text_for(&self, tag: StatusTag) -> Option<Seq<char>> {
        match tag {
            StatusTag::LoginOk => opt_view(self.login_ok),
            StatusTag::LoginFail => opt_view(self.login_fail),
            StatusTag::StatusCodeFail => opt_view(self.status_code_fail),
            StatusTag::ResponseFail => opt_view(self.response_fail),
        }
    }

    /// A table with no decoration.
    pub fn new() -> (r: Decorations)
        ensures
            forall|tag: StatusTag| r.text_for(tag) is None,
    {
        Decorations { login_ok: None, login_fail: None, status_code_fail: None, response_fail: None }
    }

    /// Sets the decoration for the status named `name`; returns whether the
    /// name stands for a status. An unknown name changes nothing.
    pub fn set(&mut self, name: &String, text: String) -> (known: bool)
        ensures
            known == tag_named(name@) is Some,
            forall|tag: StatusTag| #[trigger] final(self).text_for(tag) == if tag_named(name@) == Some(tag) {
                Some(text@)
            } else {
                old(self).text_for(tag)
            },
    {
        match StatusTag::from_name(name) {
            Some(StatusTag::LoginOk) => {
                self.login_ok = Some(text);
                true
            },
            Some(StatusTag::LoginFail) => {
                self.login_fail = Some(text);
                true
            },
            Some(StatusTag::StatusCodeFail) => {
                self.status_code_fail = Some(text);
                true
            },
            Some(StatusTag::ResponseFail) => {
                self.response_fail = Some(text);
                true
            },
            None => false,
        }
    }

    /// The decoration held for a status.
    pub fn get(&self, tag: StatusTag) -> (r: Option<&String>)
        ensures
            match r {
                Some(t) => self.text_for(tag) == Some(t@),
                None => self.text_for(tag) is None,
            },
    {
        match tag {
            StatusTag::LoginOk => self.login_ok.as_ref(),
            StatusTag::LoginFail => self.login_fail.as_ref(),
            StatusTag::StatusCodeFail => self.status_code_fail.as_ref(),
            StatusTag::ResponseFail => self.response_fail.as_ref(),
        }
    }
}

/// The reply for an outcome: `As of <clock>, ` then the status message, then
/// the status's decoration if there is one.
pub open spec fn reply_text(clock: Seq<char>, outcome: ProbeOutcome, decoration: Option<Seq<char>>) -> Seq<char> {
    "As of "@ + clock + ", "@ + outcome_message(outcome) + match decoration {
        Some(d) => d,
        None => Seq::empty(),
    }
}

/// The reply for an outcome, given the clock text.
pub fn render_reply(clock: &str, outcome: ProbeOutcome, decorations: &Decorations) -> (r: String)
    ensures
        r@ == reply_text(clock@, outcome, decorations.text_for(outcome_tag(outcome))),
{
    let mut out = String::from_str("As of ");
    out.append(clock);
    out.append(", ");
    out.append(message_for(outcome));
    match decorations.get(tag_for(outcome)) {
        Some(d) => out.append(d.as_str()),
        None => {},
    }
    assert(out@ =~= reply_text(clock@, outcome, decorations.text_for(outcome_tag(outcome))));
    out
}

/// The reply for an outcome probed at a Unix timestamp; `None` only where the
/// date library cannot represent the timestamp.
pub fn reply_at(timestamp: i64, outcome: ProbeOutcome, decorations: &Decorations) -> (r: Option<String>)
    ensures
        r matches Some(text) ==> text@ == reply_text(
            clock_text_of(timestamp as int),
            outcome,
            decorations.text_for(outcome_tag(outcome)),
        ),
        0 <= timestamp <= LAST_TIMESTAMP ==> r is Some,
{
    match clock_text(timestamp) {
        Some(clock) => Some(render_reply(clock.as_str(), outcome, decorations)),
        None => None,
    }
}

} // verus!
