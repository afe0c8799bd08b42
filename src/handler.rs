//! The extension's own request convention: a `runRust` event whose data
//! names a `function` and an optional `parameter`. `ping` is answered at
//! once; `longRun` announces polling and hands the work to a background
//! worker whose messages reach the host through the shared queue.
use vstd::prelude::*;
use vstd::string::*;
use crate::extension::{data_text, Extension};
use crate::wire::{str_member, json_str_member, opt_view, str_eq, Envelope, EventMessage};

verus! {

/// The number of progress messages a long-running task reports.
pub const LONG_RUN_STEPS: u64 = 10;

/// A request decoded from a `runRust` envelope's data.
#[derive(Debug, PartialEq, Eq)]
pub enum Request {
    /// An echo of the parameter.
    Ping(String),
    /// A long-running task reported through the shared queue.
    LongRun,
    /// An unknown function, or `ping` without a string parameter.
    Ignored,
}

impl View for Request {
    type V = Option<Option<Seq<char>>>;

    /// `Some(Some(p))` for a ping of `p`, `Some(None)` for a long run,
    /// `None` for an ignored request.
    open spec fn view(&self) -> Option<Option<Seq<char>>> {
        match self {
            Request::Ping(p) => Some(Some(p@)),
            Request::LongRun => Some(None),
            Request::Ignored => None,
        }
    }
}

/// The request named by the `function` and `parameter` fields.
pub open spec fn request_of(function: Option<Seq<char>>, parameter: Option<Seq<char>>) -> Option<
    Option<Seq<char>>,
> {
    match function {
        Some(f) => if f == "ping"@ && parameter.is_some() {
            Some(Some(parameter->Some_0))
        } else if f == "longRun"@ {
            Some(None)
        } else {
            None
        },
        None => None,
    }
}

impl Request {
    pub fn from_fields(function: Option<String>, parameter: Option<String>) -> (r: Request)
        ensures
            r@ == request_of(opt_view(function), opt_view(parameter)),
    {
        proof {
            reveal_strlit("ping");
            reveal_strlit("longRun");
        }
        match function {
            Some(f) => {
                if str_eq(f.as_str(), "ping") {
                    match parameter {
                        Some(p) => Request::Ping(p),
                        None => {
                            assert("ping"@.len() != "longRun"@.len());
                            Request::Ignored
                        },
                    }
                } else if str_eq(f.as_str(), "longRun") {
                    Request::LongRun
                } else {
                    Request::Ignored
                }
            },
            None => Request::Ignored,
        }
    }
}

/// The reply to a ping of `p`.
pub open spec fn pong_text(p: Seq<char>) -> Seq<char> {
    "Rust says PONG in reply to '"@ + p + "'"@
}

pub open spec fn digit_char(d: nat) -> char {
    if d == 0 { '0' } else if d == 1 { '1' } else if d == 2 { '2' } else if d == 3 { '3' }
    else if d == 4 { '4' } else if d == 5 { '5' } else if d == 6 { '6' } else if d == 7 { '7' }
    else if d == 8 { '8' } else { '9' }
}

/// The decimal digits of `n`, without leading zeros.
pub open spec fn decimal(n: nat) -> Seq<char>
    decreases n,
{
    if n < 10 {
        seq![digit_char(n)]
    } else {
        decimal(n / 10).push(digit_char(n % 10))
    }
}

fn digit_str(d: u64) -> (r: &'static str)
    requires
        d < 10,
    ensures
        r@ == seq![digit_char(d as nat)],
{
    proof {
        reveal_strlit("0"); reveal_strlit("1"); reveal_strlit("2"); reveal_strlit("3");
        reveal_strlit("4"); reveal_strlit("5"); reveal_strlit("6"); reveal_strlit("7");
        reveal_strlit("8"); reveal_strlit("9");
    }
    let r = if d == 0 { "0" } else if d == 1 { "1" } else if d == 2 { "2" } else if d == 3 { "3" }
    else if d == 4 { "4" } else if d == 5 { "5" } else if d == 6 { "6" } else if d == 7 { "7" }
    else if d == 8 { "8" } else { "9" };
    assert(r@ =~= seq![digit_char(d as nat)]);
    r
}

/// `n` written in decimal.
pub fn decimal_string(n: u64) -> (r: String)
    ensures
        r@ == decimal(n as nat),
    decreases n,
{
    if n < 10 {
        String::from_str(digit_str(n))
    } else {
        let mut s = decimal_string(n / 10);
        s.append(digit_str(n % 10));
        assert(s@ =~= decimal((n / 10) as nat).push(digit_char((n % 10) as nat)));
        s
    }
}

/// The text of progress message `step` of a long-running task.
pub open spec fn progress_text(step: nat) -> Seq<char> {
    "Long-running task progress: "@ + decimal(step) + " / "@ + decimal(LONG_RUN_STEPS as nat)
}

/// Message `step` of a long-running task's report: progress for steps 1
/// to `LONG_RUN_STEPS`, then one `stopPolling` with empty data, then
/// nothing.
pub open spec fn long_run_spec(step: nat) -> Option<(Seq<char>, Seq<char>)> {
    if 1 <= step <= LONG_RUN_STEPS {
        Some(("pingResult"@, progress_text(step)))
    } else if step == LONG_RUN_STEPS + 1 {
        Some(("stopPolling"@, ""@))
    } else {
        None
    }
}

/// Message `step` of a long-running task's report, counted from 1.
pub fn long_run_event(step: u64) -> (r: Option<EventMessage>)
    ensures
        match r {
            Some(m) => long_run_spec(step as nat) == Some(m@),
            None => long_run_spec(step as nat).is_none(),
        },
{
    if 1 <= step && step <= LONG_RUN_STEPS {
        let mut s = String::from_str("Long-running task progress: ");
        s.append(decimal_string(step).as_str());
        s.append(" / ");
        s.append(decimal_string(LONG_RUN_STEPS).as_str());
        Some(EventMessage { event: String::from_str("pingResult"), data: s })
    } else if step == LONG_RUN_STEPS + 1 {
        Some(EventMessage::new("stopPolling", ""))
    } else {
        None
    }
}

impl Extension {
    /// Answers a request: a ping is replied to at once with `pingResult`;
    /// a long run sends `startPolling` with data `_` and returns `true`,
    /// asking the caller to start the background worker.
    pub fn handle_request(&mut self, req: Request) -> (launch: bool)
        ensures
            launch == (req is LongRun),
            final(self).pending() == old(self).pending() + reply_of(req@),
            final(self).spec_config() == old(self).spec_config(),
            final(self).spec_token() == old(self).spec_token(),
            final(self).spec_url() == old(self).spec_url(),
            final(self).spec_messages() == old(self).spec_messages(),
    {
        match req {
            Request::Ping(p) => {
                let mut msg = String::from_str("Rust says PONG in reply to '");
                msg.append(p.as_str());
                msg.append("'");
                self.send_message("pingResult", msg.as_str());
                assert(old(self).pending().push(("pingResult"@, pong_text(p@))) =~= old(self).pending()
                    + reply_of(Some(Some(p@))));
                false
            },
            Request::LongRun => {
                self.send_message("startPolling", "_");
                assert(old(self).pending().push(("startPolling"@, "_"@)) =~= old(self).pending()
                    + reply_of(Some(None)));
                true
            },
            Request::Ignored => {
                assert(old(self).pending() =~= old(self).pending() + reply_of(None));
                false
            },
        }
    }
}

/// The messages sent in reply to a request.
pub open spec fn reply_of(req: Option<Option<Seq<char>>>) -> Seq<(Seq<char>, Seq<char>)> {
    match req {
        Some(Some(p)) => seq![("pingResult"@, pong_text(p))],
        Some(None) => seq![("startPolling"@, "_"@)],
        None => Seq::empty(),
    }
}

/// The request that an envelope makes: a `runRust` event whose data names
/// the function and its parameter; any other event makes none.
pub open spec fn request_of_envelope(t: Seq<char>) -> Option<Option<Seq<char>>> {
    if json_str_member(t, "event"@) == Some("runRust"@) {
        request_of(
            json_str_member(data_text(t), "function"@),
            json_str_member(data_text(t), "parameter"@),
        )
    } else {
        None
    }
}

/// Handles one delivered envelope: a `runRust` event's data is read as a
/// request and answered. Returns whether a long-running worker is to be
/// started; in that case `startPolling` has been sent.
pub fn process_app_event(ext: &mut Extension, d: &Envelope) -> (launch: bool)
    ensures
        launch == (request_of_envelope(d@) == Some(None::<Seq<char>>)),
        final(ext).pending() == old(ext).pending() + reply_of(request_of_envelope(d@)),
        final(ext).spec_config() == old(ext).spec_config(),
        final(ext).spec_token() == old(ext).spec_token(),
        final(ext).spec_url() == old(ext).spec_url(),
        final(ext).spec_messages() == old(ext).spec_messages(),
{
    if ext.is_event(d, "runRust") {
        let data = ext.get_data(d);
        let req = Request::from_fields(
            str_member(data.text.as_str(), "function"),
            str_member(data.text.as_str(), "parameter"),
        );
        ext.handle_request(req)
    } else {
        assert(old(ext).pending() =~= old(ext).pending() + reply_of(None));
        false
    }
}

} // verus!
