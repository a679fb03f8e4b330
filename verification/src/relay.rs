//! The relay service's per-message decisions: decode an inbound payload,
//! plan the broadcast call its network selects, interpret the call's result,
//! and keep the long-running loop alive through every per-request failure.
//!
//! The loop around these decisions performs the transport receive and the
//! HTTP call; it feeds each outside result back in as a `RelayEvent` and
//! carries out the returned `RelayAction`. The protocol is one-way: no
//! action ever answers the original requester.

use vstd::prelude::*;
use vstd::string::StringExecFns;
use crate::network::{Network, spec_mempool_api_url};
use crate::wire::{TransactionRequest, DecodeError, spec_decode, decode};

verus! {

/// Where the relay stands in its lifetime: acquiring its transport identity,
/// serving inbound envelopes, or stopped for good.
#[derive(Clone, Copy, Debug, PartialEq, Eq, Structural)]
pub enum RelayPhase {
    Starting,
    Running,
    Stopped,
}

/// One outbound broadcast call, ready to perform: POST `body` to `url` as
/// plain text.
pub struct BroadcastPlan {
    pub url: String,
    pub body: String,
}

impl BroadcastPlan {
    /// The content-type header of the broadcast call: the body is raw
    /// transaction text, nothing more.
    pub fn content_type(&self) -> (r: &'static str)
        ensures
            r@ == "text/plain"@,
    {
        "text/plain"
    }
}

/// How a finished broadcast call is read: a success status means the body
/// (typically the broadcast transaction id, or an upstream error message,
/// which the relay does not tell apart) is logged verbatim; anything else
/// is a failure, logged with status and body.
pub enum BroadcastOutcome {
    Success { body: String },
    Failure { status: u16, body: String },
}

/// What the loop hands the relay: its own startup result, an inbound
/// payload, the result of the broadcast call it was told to make, or the
/// end of the inbound stream.
pub enum RelayEvent {
    IdentityReady { address: String },
    IdentityFailed,
    Inbound { payload: Vec<u8> },
    BroadcastResult { status: u16, body: String },
    StreamEnded,
}

/// What the relay tells the loop to do next. No variant addresses the
/// original requester: the relay is fire-and-forget by design.
pub enum RelayAction {
    /// Write the freshly acquired address into the publication surface.
    PublishAddress { address: String },
    /// Identity acquisition failed; the whole service aborts.
    AbortStartup,
    /// Perform this broadcast call and report its result back.
    Broadcast { plan: BroadcastPlan },
    /// Log the malformed payload's error and keep serving.
    LogMalformed { error: DecodeError },
    /// Log how the broadcast went and keep serving.
    LogOutcome { outcome: BroadcastOutcome },
    /// The inbound stream is exhausted; log it and stop.
    LogStreamClosed,
}

/// The full URL of the broadcast endpoint for `n`: its base URL followed
/// by the transaction-submission path.
pub open spec fn spec_broadcast_url(n: Network) -> Seq<char> {
    spec_mempool_api_url(n) + "/tx"@
}

/// A status in the HTTP success range counts as a successful broadcast.
pub open spec fn spec_is_success_status(status: u16) -> bool {
    200 <= status < 300
}

/// Decode an inbound payload and plan the broadcast it asks for: the body
/// is the transaction text verbatim, the URL the one its network selects.
/// A malformed payload yields its `DecodeError` and nothing else.
pub fn handle_inbound(payload: &Vec<u8>) -> (r: Result<BroadcastPlan, DecodeError>)
    ensures
        r matches Ok(plan) ==> spec_decode(payload@) matches Ok(p)
            && plan.url@ == spec_broadcast_url(p.1) && plan.body@ == p.0,
        r matches Err(e) ==> spec_decode(payload@) matches Err(e2) && e == e2,
{
    match decode(payload) {
        Ok(req) => Ok(plan_broadcast(req)),
        Err(e) => Err(e),
    }
}

/// Build the broadcast call for a decoded envelope.
fn plan_broadcast(req: TransactionRequest) -> (r: BroadcastPlan)
    ensures
        r.url@ == spec_broadcast_url(req.network),
        r.body@ == req.tx_hex@,
{
    let mut url = String::from_str(req.network.mempool_api_url());
    url.append("/tx");
    BroadcastPlan { url, body: req.tx_hex }
}

/// Read a broadcast call's result: success exactly on a success status,
/// with the response body carried through verbatim either way.
pub fn interpret_broadcast(status: u16, body: String) -> (r: BroadcastOutcome)
    ensures
        spec_is_success_status(status) ==> (r matches BroadcastOutcome::Success { body: b }
            && b@ == body@),
        !spec_is_success_status(status) ==> (r matches BroadcastOutcome::Failure {
            status: s,
            body: b,
        } && s == status && b@ == body@),
{
    if 200 <= status && status < 300 {
        BroadcastOutcome::Success { body }
    } else {
        BroadcastOutcome::Failure { status, body }
    }
}

/// The decimal digit character for `d`.
pub open spec fn spec_digit_char(d: int) -> char
    recommends
        0 <= d < 10,
{
    if d == 0 {
        '0'
    } else if d == 1 {
        '1'
    } else if d == 2 {
        '2'
    } else if d == 3 {
        '3'
    } else if d == 4 {
        '4'
    } else if d == 5 {
        '5'
    } else if d == 6 {
        '6'
    } else if d == 7 {
        '7'
    } else if d == 8 {
        '8'
    } else {
        '9'
    }
}

/// The decimal digits of `n`, most significant first, with no leading
/// zeros except for zero itself.
pub open spec fn spec_decimal(n: int) -> Seq<char>
    recommends
        n >= 0,
    decreases n,
{
    if n < 10 {
        seq![spec_digit_char(n)]
    } else {
        spec_decimal(n / 10).push(spec_digit_char(n % 10))
    }
}

/// The one-character string for a decimal digit.
fn digit_str(d: u16) -> (r: &'static str)
    requires
        d < 10,
    ensures
        r@ == seq![spec_digit_char(d as int)],
{
    proof {
        reveal_strlit("0");
        reveal_strlit("1");
        reveal_strlit("2");
        reveal_strlit("3");
        reveal_strlit("4");
        reveal_strlit("5");
        reveal_strlit("6");
        reveal_strlit("7");
        reveal_strlit("8");
        reveal_strlit("9");
    }
    let s = match d {
        0 => "0",
        1 => "1",
        2 => "2",
        3 => "3",
        4 => "4",
        5 => "5",
        6 => "6",
        7 => "7",
        8 => "8",
        _ => "9",
    };
    proof {
        assert(s@ =~= seq![spec_digit_char(d as int)]);
    }
    s
}

/// Render a status code in decimal, for the relay's log lines.
pub fn u16_to_decimal(n: u16) -> (r: String)
    ensures
        r@ == spec_decimal(n as int),
    decreases n,
{
    if n < 10 {
        String::from_str(digit_str(n))
    } else {
        let mut prefix = u16_to_decimal(n / 10);
        prefix.append(digit_str(n % 10));
        proof {
            assert(prefix@ =~= spec_decimal(n as int));
        }
        prefix
    }
}

impl BroadcastOutcome {
    /// The line the relay logs for this outcome: the response body verbatim
    /// after a fixed prefix, with the status ahead of the body on failure.
    pub fn log_line(&self) -> (r: String)
        ensures
            self matches BroadcastOutcome::Success { body } ==> r@ == "Success: "@ + body@,
            self matches BroadcastOutcome::Failure { status, body } ==> r@
                == "Submission failed: "@ + spec_decimal(status as int) + " - "@ + body@,
    {
        match self {
            BroadcastOutcome::Success { body } => {
                let mut line = String::from_str("Success: ");
                line.append(body.as_str());
                line
            },
            BroadcastOutcome::Failure { status, body } => {
                let mut line = String::from_str("Submission failed: ");
                let digits = u16_to_decimal(*status);
                line.append(digits.as_str());
                line.append(" - ");
                line.append(body.as_str());
                line
            },
        }
    }
}

/// The relay's control state. The loop owns one of these, feeds it every
/// event, and carries out the actions it returns.
pub struct RelayMachine {
    phase: RelayPhase,
}

/// Which events can arrive in which phase: identity results only while
/// starting, inbound traffic and broadcast results only while running.
pub open spec fn event_fits(phase: RelayPhase, event: RelayEvent) -> bool {
    match event {
        RelayEvent::IdentityReady { .. } => phase == RelayPhase::Starting,
        RelayEvent::IdentityFailed => phase == RelayPhase::Starting,
        RelayEvent::Inbound { .. } => phase == RelayPhase::Running,
        RelayEvent::BroadcastResult { .. } => phase == RelayPhase::Running,
        RelayEvent::StreamEnded => phase == RelayPhase::Running,
    }
}

/// Everything one step of the relay does: the phase it moves to and the
/// action it orders, as a function of the phase it was in and the event.
pub open spec fn step_relation(
    pre: RelayPhase,
    event: RelayEvent,
    post: RelayPhase,
    action: RelayAction,
) -> bool {
    match event {
        RelayEvent::IdentityReady { address } => {
            &&& post == RelayPhase::Running
            &&& action matches RelayAction::PublishAddress { address: a } && a@ == address@
        },
        RelayEvent::IdentityFailed => {
            &&& post == RelayPhase::Stopped
            &&& action is AbortStartup
        },
        RelayEvent::Inbound { payload } => {
            &&& post == pre
            &&& match spec_decode(payload@) {
                Ok(p) => action matches RelayAction::Broadcast { plan }
                    && plan.url@ == spec_broadcast_url(p.1) && plan.body@ == p.0,
                Err(e) => action matches RelayAction::LogMalformed { error } && error == e,
            }
        },
        RelayEvent::BroadcastResult { status, body } => {
            &&& post == pre
            &&& action matches RelayAction::LogOutcome { outcome } && (if spec_is_success_status(
                status,
            ) {
                outcome matches BroadcastOutcome::Success { body: b } && b@ == body@
            } else {
                outcome matches BroadcastOutcome::Failure { status: s, body: b } && s == status
                    && b@ == body@
            })
        },
        RelayEvent::StreamEnded => {
            &&& post == RelayPhase::Stopped
            &&& action is LogStreamClosed
        },
    }
}

impl RelayMachine {
    /// The phase the relay is in.
    pub closed spec fn phase(&self) -> RelayPhase {
        self.phase
    }

    /// A fresh relay, before its transport identity exists.
    pub fn new() -> (r: RelayMachine)
        ensures
            r.phase() == RelayPhase::Starting,
    {
        RelayMachine { phase: RelayPhase::Starting }
    }

    /// Exec view of the phase, for the loop's own control flow.
    pub fn current_phase(&self) -> (r: RelayPhase)
        ensures
            r == self.phase(),
    {
        self.phase
    }

    /// Advance the relay by one event and order the loop's next action.
    pub fn step(&mut self, event: RelayEvent) -> (action: RelayAction)
        requires
            event_fits(old(self).phase(), event),
        ensures
            step_relation(old(self).phase(), event, final(self).phase(), action),
    {
        match event {
            RelayEvent::IdentityReady { address } => {
                self.phase = RelayPhase::Running;
                RelayAction::PublishAddress { address }
            },
            RelayEvent::IdentityFailed => {
                self.phase = RelayPhase::Stopped;
                RelayAction::AbortStartup
            },
            RelayEvent::Inbound { payload } => {
                match handle_inbound(&payload) {
                    Ok(plan) => RelayAction::Broadcast { plan },
                    Err(error) => RelayAction::LogMalformed { error },
                }
            },
            RelayEvent::BroadcastResult { status, body } => {
                RelayAction::LogOutcome { outcome: interpret_broadcast(status, body) }
            },
            RelayEvent::StreamEnded => {
                self.phase = RelayPhase::Stopped;
                RelayAction::LogStreamClosed
            },
        }
    }
}

/// No single request's failure terminates the service: after any inbound
/// payload, malformed or not, and after any broadcast result, failed or
/// not, the relay is in the phase it was in, and the step orders no
/// address publication.
pub proof fn lemma_request_failure_keeps_running(
    pre: RelayPhase,
    event: RelayEvent,
    post: RelayPhase,
    action: RelayAction,
)
    requires
        step_relation(pre, event, post, action),
        event matches RelayEvent::Inbound { .. } || event matches RelayEvent::BroadcastResult {
            ..
        },
    ensures
        post == pre,
        !(action matches RelayAction::PublishAddress { .. }),
{
}

/// An address publication is ordered only by the identity arriving while
/// the relay is starting, and no step ever returns the relay to
/// `Starting`: over a whole run, the address is published at most once.
pub proof fn lemma_address_published_once(
    pre: RelayPhase,
    event: RelayEvent,
    post: RelayPhase,
    action: RelayAction,
)
    requires
        event_fits(pre, event),
        step_relation(pre, event, post, action),
    ensures
        action matches RelayAction::PublishAddress { .. } ==> pre == RelayPhase::Starting && post
            == RelayPhase::Running,
        post != RelayPhase::Starting,
{
}

} // verus!
