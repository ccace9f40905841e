//! The laws of the session lifecycle, stated over the step functions that
//! the entry points' contracts are written with, and proved once for all
//! inputs.

use vstd::prelude::*;

use crate::application::{
    step_memory, step_notification, step_request, SessionView,
};
use crate::messages::{Action, CoreError, CoreNotification, CoreRequest, Memory, OutboundNotification, ResponseValue};

verus! {

/// While the session is waiting, every message other than the tracing
/// toggle and the handshake is refused with `NotReady`, and neither the
/// session nor the tracing switch changes.
pub proof fn lemma_waiting_rejects(s: SessionView, tracing: bool, msg: CoreNotification)
    requires
        !s.running,
        !(msg matches CoreNotification::TracingConfig { .. }),
        !(msg matches CoreNotification::ClientStarted { .. }),
    ensures
        step_notification(s, tracing, msg) == (
            s,
            tracing,
            Err::<Option<Action>, CoreError>(CoreError::NotReady),
        ),
{
}

/// The handshake received while waiting starts the session, leaves the
/// tracing switch alone, succeeds, and records exactly one successful
/// `config_status` notification.
pub proof fn lemma_client_started_starts(
    s: SessionView,
    tracing: bool,
    config_dir: Option<String>,
    client_extras_dir: Option<String>,
)
    requires
        !s.running,
    ensures
        ({
            let (s2, t2, r) = step_notification(
                s,
                tracing,
                CoreNotification::ClientStarted { config_dir, client_extras_dir },
            );
            &&& s2.running
            &&& s2.outbox == seq![OutboundNotification::ConfigStatus { success: true }]
            &&& t2 == tracing
            &&& r == Ok::<Option<Action>, CoreError>(None)
        }),
{
}

/// A second handshake is refused with `AlreadyStarted` and leaves the
/// running session — with the state the first handshake constructed — and
/// the tracing switch untouched.
pub proof fn lemma_second_client_started(
    s: SessionView,
    tracing: bool,
    msg1: CoreNotification,
    msg2: CoreNotification,
)
    requires
        !s.running,
        msg1 matches CoreNotification::ClientStarted { .. },
        msg2 matches CoreNotification::ClientStarted { .. },
    ensures
        ({
            let (s1, t1, r1) = step_notification(s, tracing, msg1);
            let (s2, t2, r2) = step_notification(s1, t1, msg2);
            &&& s2 == s1
            &&& t2 == t1
            &&& r2 == Err::<Option<Action>, CoreError>(CoreError::AlreadyStarted)
        }),
{
}

/// A pair of tracing toggles — on, then off — succeeds in either
/// lifecycle stage, leaves the switch at the last value, and never
/// changes the session.
pub proof fn lemma_tracing_toggle(s: SessionView, tracing: bool)
    ensures
        ({
            let (s1, t1, r1) = step_notification(
                s,
                tracing,
                CoreNotification::TracingConfig { enabled: true },
            );
            let (s2, t2, r2) = step_notification(
                s1,
                t1,
                CoreNotification::TracingConfig { enabled: false },
            );
            &&& s1 == s && t1 == true && r1 == Ok::<Option<Action>, CoreError>(None)
            &&& s2 == s && t2 == false && r2 == Ok::<Option<Action>, CoreError>(None)
        }),
{
}

/// Once running, a `send_memory` notification changes nothing by itself —
/// it only asks for the fetch — and feeding back the fetched statistics
/// records exactly one `send_memory` notification carrying those three
/// numbers.
pub proof fn lemma_send_memory(s: SessionView, tracing: bool, memory: Memory)
    requires
        s.running,
    ensures
        ({
            let (s1, t1, r1) = step_notification(s, tracing, CoreNotification::SendMemory {});
            let (s2, r2) = step_memory(s1, memory);
            &&& s1 == s && t1 == tracing && r1 == Ok::<Option<Action>, CoreError>(
                Some(Action::FetchMemory),
            )
            &&& r2 == Ok::<(), CoreError>(())
            &&& s2.running
            &&& s2.outbox == s.outbox.push(OutboundNotification::SendMemory {
                total: memory.total,
                available: memory.available,
                free: memory.free,
            })
        }),
{
}

/// Running is terminal: once the session runs, no notification and no
/// memory feedback ever takes it back to the waiting stage.
pub proof fn lemma_running_is_terminal(
    s: SessionView,
    tracing: bool,
    msg: CoreNotification,
    memory: Memory,
)
    requires
        s.running,
    ensures
        step_notification(s, tracing, msg).0.running,
        step_memory(s, memory).0.running,
{
}

/// Once running, requests may be answered any number of times: every one
/// of them succeeds with the same fixed placeholder, and none changes the
/// session.
pub proof fn lemma_requests_stable(s: SessionView, reqs: Seq<CoreRequest>)
    requires
        s.running,
    ensures
        forall|i: int|
            0 <= i < reqs.len() ==> step_request(s, reqs[i]) == Ok::<ResponseValue, CoreError>(
                ResponseValue::Int(1),
            ),
{
}

} // verus!
