//! The session core: the peer buffer, the shared state, the dispatcher,
//! and the lifecycle gate around them.
//!
//! The session is created waiting, performs a one-time transition to the
//! running stage when the `client_started` handshake arrives, and from
//! then on routes every inbound message to the dispatcher against the
//! shared state. Until then everything but the tracing toggle and the
//! handshake itself is refused with a typed error. Outbound notifications
//! are recorded on the peer buffer in delivery order; the transport
//! collaborator drains the buffer and puts each entry on the wire.
//!
//! Exclusive access to the shared state is carried by `&mut`: every
//! dispatch call goes through the single session value, so no two callers
//! can reach the state at once. Work that may suspend — querying the
//! memory-stats provider — is never done while the state is held; the
//! session instead hands back an [`Action`] and the caller feeds the
//! result into [`Stadal::deliver_memory`] afterwards.

use vstd::prelude::*;

use crate::messages::{Action, CoreError, CoreNotification, CoreRequest, Memory, OutboundNotification, ResponseValue};
use crate::tracing::TracingSwitch;

verus! {

/// The peer: the session's end of the outbound-notification channel. Its
/// view is the sequence of notifications recorded and not yet handed to
/// the transport, oldest first.
pub struct Client {
    pending: Vec<OutboundNotification>,
}

impl View for Client {
    type V = Seq<OutboundNotification>;

    closed spec fn view(&self) -> Seq<OutboundNotification> {
        self.pending@
    }
}

impl Client {
    /// A fresh peer with nothing to deliver.
    pub fn new() -> (r: Client)
        ensures
            r@ == Seq::<OutboundNotification>::empty(),
    {
        Client { pending: Vec::new() }
    }

    /// Records the `send_memory` notification that reports the given
    /// statistics.
    pub fn send_memory(&mut self, memory: Memory)
        ensures
            final(self)@ == old(self)@.push(
                (OutboundNotification::SendMemory {
                    total: memory.total,
                    available: memory.available,
                    free: memory.free,
                }),
            ),
    {
        self.pending.push(OutboundNotification::SendMemory {
            total: memory.total,
            available: memory.available,
            free: memory.free,
        });
    }

    /// Records the `config_status` notification that reports whether the
    /// startup transition succeeded.
    fn send_config_status(&mut self, success: bool)
        ensures
            final(self)@ == old(self)@.push((OutboundNotification::ConfigStatus { success })),
    {
        self.pending.push(OutboundNotification::ConfigStatus { success });
    }

    /// Hands the recorded notifications to the transport, oldest first,
    /// and leaves the buffer empty.
    pub fn take_pending(&mut self) -> (r: Vec<OutboundNotification>)
        ensures
            r@ == old(self)@,
            final(self)@ == Seq::<OutboundNotification>::empty(),
    {
        let mut taken: Vec<OutboundNotification> = Vec::new();
        core::mem::swap(&mut taken, &mut self.pending);
        taken
    }
}

/// The action the dispatcher asks for on each notification: only
/// `send_memory` needs outside work before anything can be emitted.
pub open spec fn notification_action(cmd: CoreNotification) -> Option<Action> {
    match cmd {
        CoreNotification::SendMemory {} => Some(Action::FetchMemory),
        _ => None,
    }
}

/// The shared application state. It holds the peer; its view is the
/// peer's. Exactly one instance exists once the session is running, and
/// only the dispatcher mutates it.
pub struct CoreState {
    peer: Client,
}

impl View for CoreState {
    type V = Seq<OutboundNotification>;

    closed spec fn view(&self) -> Seq<OutboundNotification> {
        self.peer@
    }
}

impl CoreState {
    /// A fresh state around a fresh peer.
    pub fn new() -> (r: CoreState)
        ensures
            r@ == Seq::<OutboundNotification>::empty(),
    {
        CoreState { peer: Client::new() }
    }

    /// Routes one notification against the state. `send_memory` needs the
    /// memory-stats provider queried outside the locked region, so it
    /// yields the fetch action; `client_started` was already consumed by
    /// the lifecycle gate; every other kind is ignored on purpose — the
    /// forward-compatibility seam for notification kinds not handled yet.
    pub fn client_notification(&mut self, cmd: CoreNotification) -> (r: Option<Action>)
        ensures
            *final(self) == *old(self),
            r == notification_action(cmd),
    {
        match cmd {
            CoreNotification::SendMemory {} => Some(Action::FetchMemory),
            CoreNotification::ClientStarted { .. } => None,
            _ => None,
        }
    }

    /// Answers one request. Both handlers are stubs that always succeed
    /// with the same fixed placeholder payload and never touch the state;
    /// the error channel is reserved for the real handlers to come.
    pub fn client_request(&mut self, cmd: CoreRequest) -> (r: Result<ResponseValue, CoreError>)
        ensures
            *final(self) == *old(self),
            r == Ok::<ResponseValue, CoreError>(ResponseValue::Int(1)),
    {
        match cmd {
            CoreRequest::GetConfig {} => Ok(ResponseValue::Int(1)),
            CoreRequest::DebugGetContents {} => Ok(ResponseValue::Int(1)),
        }
    }

    /// The one-time setup hook, invoked right after the waiting-to-running
    /// transition with the freshly derived handle: it records exactly one
    /// successful `config_status` notification, telling the transport the
    /// session is ready. Deferred work that must reach the running session
    /// later is wired through the handle, which is why the handle is
    /// non-owning.
    pub fn finish_setup(&mut self, self_ref: WeakStadalCore)
        ensures
            final(self)@ == old(self)@.push((OutboundNotification::ConfigStatus { success: true })),
    {
        let _ = self_ref;
        self.peer.send_config_status(true);
    }

    /// Dispatches on an opaque idle token. No token has an assigned
    /// meaning yet: every one is accepted and ignored, the extension point
    /// for deferred background work.
    pub fn handle_idle(&mut self, token: usize)
        ensures
            *final(self) == *old(self),
    {
        let _ = token;
    }
}

/// A non-owning handle to the running session's state, handed to deferred
/// work such as background plugin threads.
///
/// The handle holds no part of the state, so holding one never keeps the
/// state alive. It is resolved against the session context that every
/// dispatch call receives — there is no ambient global — and resolution
/// reports nothing whenever no state is owned there, never a dangling
/// reference.
#[derive(Clone, Debug)]
pub struct WeakStadalCore {}

impl WeakStadalCore {
    /// The state this handle observes, if the session is running.
    pub fn resolve<'a>(&self, session: &'a Stadal) -> (r: Option<&'a CoreState>)
        ensures
            match *session {
                Stadal::Running(st) => r matches Some(x) && *x == st,
                Stadal::Waiting => r is None,
            },
    {
        match session {
            Stadal::Running(st) => Some(st),
            Stadal::Waiting => None,
        }
    }
}

/// The session: the lifecycle gate around the shared state.
///
/// Exactly one session value exists for the process's lifetime. It is
/// created waiting, moves to running exactly once, and never moves back;
/// the shared state exists exactly while it is running.
pub enum Stadal {
    /// The `client_started` handshake has not arrived yet; nothing but the
    /// tracing toggle and the handshake itself is processed.
    Waiting,
    /// The handshake arrived; the session owns the shared state and routes
    /// every further message to the dispatcher against it.
    Running(CoreState),
}

/// The abstract state of a session: its lifecycle stage, and what the peer
/// buffer holds once it is running. A waiting session has no peer, so its
/// buffer is viewed as empty.
#[verifier::ext_equal]
pub struct SessionView {
    pub running: bool,
    pub outbox: Seq<OutboundNotification>,
}

impl View for Stadal {
    type V = SessionView;

    closed spec fn view(&self) -> SessionView {
        match *self {
            Stadal::Waiting => SessionView { running: false, outbox: Seq::empty() },
            Stadal::Running(st) => SessionView { running: true, outbox: st@ },
        }
    }
}

/// What one inbound notification does to a session: the next session
/// view, the next tracing value, and the result handed back to the
/// transport.
///
/// The tracing toggle is processed in either lifecycle stage and never
/// touches the session. The handshake, received while waiting, starts the
/// session with exactly one successful `config_status` notification
/// recorded; received again, it is refused with `AlreadyStarted` and
/// changes nothing. Every other message needs the running stage — while
/// waiting it is refused with `NotReady` — and once running only
/// `send_memory` has a visible effect: it asks for the fetch action.
pub open spec fn step_notification(s: SessionView, tracing: bool, msg: CoreNotification) -> (
    SessionView,
    bool,
    Result<Option<Action>, CoreError>,
) {
    match msg {
        CoreNotification::TracingConfig { enabled } => (s, enabled, Ok(None)),
        CoreNotification::ClientStarted { .. } => if !s.running {
            (
                (SessionView {
                    running: true,
                    outbox: seq![OutboundNotification::ConfigStatus { success: true }],
                }),
                tracing,
                Ok(None),
            )
        } else {
            (s, tracing, Err(CoreError::AlreadyStarted))
        },
        _ => if s.running {
            (s, tracing, Ok(notification_action(msg)))
        } else {
            (s, tracing, Err(CoreError::NotReady))
        },
    }
}

/// What answering one request does: requests need the running stage and
/// never change the session; both stub handlers answer with the fixed
/// placeholder.
pub open spec fn step_request(s: SessionView, req: CoreRequest) -> Result<ResponseValue, CoreError> {
    if s.running {
        Ok(ResponseValue::Int(1))
    } else {
        Err(CoreError::NotReady)
    }
}

/// What feeding back fetched memory statistics does: the running session
/// records exactly one `send_memory` notification carrying the three
/// numbers; a waiting session refuses with `NotReady`.
pub open spec fn step_memory(s: SessionView, memory: Memory) -> (SessionView, Result<(), CoreError>) {
    if s.running {
        (
            (SessionView {
                running: true,
                outbox: s.outbox.push(OutboundNotification::SendMemory {
                    total: memory.total,
                    available: memory.available,
                    free: memory.free,
                }),
            }),
            Ok(()),
        )
    } else {
        (s, Err(CoreError::NotReady))
    }
}

impl Stadal {
    /// A fresh session, waiting for the handshake.
    pub fn new() -> (r: Stadal)
        ensures
            r@ == (SessionView { running: false, outbox: Seq::empty() }),
    {
        Stadal::Waiting
    }

    /// True until the `client_started` handshake has been received.
    pub fn is_waiting(&self) -> (r: bool)
        ensures
            r == !self@.running,
    {
        match self {
            Stadal::Waiting => true,
            _ => false,
        }
    }

    /// A view of the core state, or `NotReady` while the handshake has
    /// not arrived — reaching the state before the session runs is a
    /// protocol violation surfaced as a typed error, never an abort.
    pub fn inner(&self) -> (r: Result<&CoreState, CoreError>)
        ensures
            match *self {
                Stadal::Running(st) => r matches Ok(x) && *x == st,
                Stadal::Waiting => r matches Err(e) && e == CoreError::NotReady,
            },
    {
        match self {
            Stadal::Running(st) => Ok(st),
            Stadal::Waiting => Err(CoreError::NotReady),
        }
    }

    /// A new non-owning handle to the core state, if the session is
    /// running.
    pub fn weak_self(&self) -> (r: Option<WeakStadalCore>)
        ensures
            r is Some <==> self@.running,
    {
        match self {
            Stadal::Running(_) => Some(WeakStadalCore {}),
            Stadal::Waiting => None,
        }
    }

    /// The single entry point for inbound notifications.
    ///
    /// The tracing toggle is handled first, in either lifecycle stage.
    /// The one-time handshake performs the waiting-to-running transition,
    /// derives the non-owning handle and runs the setup hook with it.
    /// Everything that remains is forwarded to the dispatcher against the
    /// exclusively held state, which requires the running stage.
    pub fn handle_notification(&mut self, tracing: &mut TracingSwitch, rpc: CoreNotification) -> (r:
        Result<Option<Action>, CoreError>)
        ensures
            (final(self)@, final(tracing)@, r) == step_notification(
                old(self)@,
                old(tracing)@,
                rpc,
            ),
    {
        // Tracing may be toggled before the handshake: the fast path
        // returns without touching the (absent) state.
        if let CoreNotification::TracingConfig { enabled } = rpc {
            tracing.set(enabled);
            if self.is_waiting() {
                return Ok(None);
            }
        }

        if let CoreNotification::ClientStarted { .. } = rpc {
            if !self.is_waiting() {
                return Err(CoreError::AlreadyStarted);
            }
            let state = CoreState::new();
            *self = Stadal::Running(state);
            let weak = self.weak_self().unwrap();
            match self {
                Stadal::Running(st) => st.finish_setup(weak),
                Stadal::Waiting => (),
            }
        }

        match self {
            Stadal::Running(st) => Ok(st.client_notification(rpc)),
            Stadal::Waiting => Err(CoreError::NotReady),
        }
    }

    /// The single entry point for inbound requests: it requires the
    /// running stage and answers through the dispatcher, which never
    /// touches the state.
    pub fn handle_request(&mut self, rpc: CoreRequest) -> (r: Result<ResponseValue, CoreError>)
        ensures
            *final(self) == *old(self),
            r == step_request(old(self)@, rpc),
    {
        match self {
            Stadal::Running(st) => st.client_request(rpc),
            Stadal::Waiting => Err(CoreError::NotReady),
        }
    }

    /// The idle entry point: it requires the running stage; the token has
    /// no assigned meaning yet and is ignored there.
    pub fn idle(&mut self, token: usize) -> (r: Result<(), CoreError>)
        ensures
            *final(self) == *old(self),
            r == if old(self)@.running {
                Ok::<(), CoreError>(())
            } else {
                Err::<(), CoreError>(CoreError::NotReady)
            },
    {
        match self {
            Stadal::Running(st) => {
                st.handle_idle(token);
                Ok(())
            },
            Stadal::Waiting => Err(CoreError::NotReady),
        }
    }

    /// Feeds back the memory statistics that were fetched outside the
    /// locked region: the running state records the `send_memory`
    /// notification reporting them in one short update.
    pub fn deliver_memory(&mut self, memory: Memory) -> (r: Result<(), CoreError>)
        ensures
            (final(self)@, r) == step_memory(old(self)@, memory),
    {
        match self {
            Stadal::Running(st) => {
                st.peer.send_memory(memory);
                Ok(())
            },
            Stadal::Waiting => Err(CoreError::NotReady),
        }
    }

    /// Hands the recorded outbound notifications to the transport, oldest
    /// first, leaving the buffer empty; requires the running stage.
    pub fn take_outbound(&mut self) -> (r: Result<Vec<OutboundNotification>, CoreError>)
        ensures
            old(self)@.running ==> (r matches Ok(v) && v@ == old(self)@.outbox && final(self)@
                == (SessionView { running: true, outbox: Seq::empty() })),
            !old(self)@.running ==> (r matches Err(e) && e == CoreError::NotReady && *final(self)
                == *old(self)),
    {
        match self {
            Stadal::Running(st) => Ok(st.peer.take_pending()),
            Stadal::Waiting => Err(CoreError::NotReady),
        }
    }
}

} // verus!
