//! The driver: the single owner of the transport. Its loop body is the pure
//! transition `process`, which turns one ready input (a caller command, an
//! inbound message, or the outcome of the action it asked for last) into the
//! next state and the next action. The task running the loop performs each
//! action — writing, closing, resolving a slot, forwarding an event — and
//! feeds the outcome back in.
use vstd::prelude::*;

use crate::error::ChannelError;
use crate::error::ErrorKind;
use crate::error::ErrorModel;
use crate::error::SourceModel;
use crate::mailbox::MailBox;
use crate::mailbox::ids_distinct;
use crate::mailbox::lemma_remove_preserves_others;
use crate::mailbox::seq_contains_id;
use crate::mailbox::seq_remove_id;
use crate::mailbox::seq_slot_of;
use crate::request::RequestID;

verus! {

/// A command sent from a channel handle to the driver.
pub enum Command<S> {
    /// Deliver `message` on the wire and track `slot` under `request`.
    SendRequest { request: RequestID, message: String, slot: S },
    /// Close the transport cleanly, then terminate.
    ShutdownGraceful,
    /// Terminate immediately without touching the transport.
    ShutdownForced,
}

/// One ready input for the driver: a caller command, an inbound message
/// (already converted to text, with the correlation id read from its
/// envelope), a connection-level conversion or parse failure, or the outcome
/// of the action the driver asked for last.
pub enum DriverEvent<S> {
    Command(Command<S>),
    /// An inbound message decoded far enough to read its correlation id.
    Inbound { correlation: RequestID, text: String },
    /// An inbound message that could not be converted to text or whose
    /// envelope could not be parsed: connection-level corruption.
    InboundInvalid { kind: ErrorKind, detail: String },
    /// The outcome of a requested transport write.
    WriteResult { ok: bool, detail: String },
    /// The outcome of a requested transport close.
    CloseResult { ok: bool, detail: String },
    /// The outcome of a requested slot resolution or event forward.
    DeliverResult { ok: bool },
}

/// What the driver asks its runner to do next.
pub enum DriverAction<S> {
    /// Write `message` to the transport, then report the outcome.
    Write { message: String },
    /// Close the transport cleanly, then report the outcome.
    Close,
    /// Resolve `slot` with `text`, then report the outcome.
    Resolve { slot: S, text: String },
    /// Forward `text` to the event channel, then report the outcome.
    Emit { text: String },
    /// Exit the loop with this terminal result.
    Halt { result: Result<(), ChannelError> },
    /// Nothing to do; wait for the next ready input.
    Proceed,
}

/// Which delivery the driver is waiting on.
#[derive(Clone, Copy, Debug, PartialEq, Eq, Structural)]
pub enum DeliverTarget {
    /// A completion slot of one awaiting caller.
    Slot,
    /// The uncorrelated event channel.
    Channel,
}

/// Where the driver stands between inputs.
#[derive(Clone, Copy, Debug, PartialEq, Eq, Structural)]
pub enum Phase {
    /// Waiting on the command queue and the transport.
    Running,
    /// Waiting for the outcome of a transport write.
    Sending,
    /// Waiting for the outcome of a transport close.
    Closing,
    /// Waiting for the outcome of a delivery.
    Delivering(DeliverTarget),
    /// Terminated.
    Done,
}

/// The abstract state of a driver: its phase and the tracked requests.
pub struct DriverModel<S> {
    pub phase: Phase,
    pub pending: Seq<(RequestID, S)>,
}

/// The abstract value of one driver input.
pub enum EventModel<S> {
    CmdSend { request: RequestID, message: Seq<char>, slot: S },
    CmdStop,
    CmdKill,
    Inbound { correlation: RequestID, text: Seq<char> },
    InboundInvalid { kind: ErrorKind, detail: Seq<char> },
    WriteResult { ok: bool, detail: Seq<char> },
    CloseResult { ok: bool, detail: Seq<char> },
    DeliverResult { ok: bool },
}

/// The abstract value of one driver action.
pub enum ActionModel<S> {
    Write { message: Seq<char> },
    Close,
    Resolve { slot: S, text: Seq<char> },
    Emit { text: Seq<char> },
    Halt { result: Result<(), ErrorModel> },
    Proceed,
}

impl<S> DriverEvent<S> {
    /// The abstract value of this input.
    pub open spec fn model(&self) -> EventModel<S> {
        match self {
            DriverEvent::Command(Command::SendRequest { request, message, slot }) => {
                EventModel::CmdSend { request: *request, message: message@, slot: *slot }
            },
            DriverEvent::Command(Command::ShutdownGraceful) => EventModel::CmdStop,
            DriverEvent::Command(Command::ShutdownForced) => EventModel::CmdKill,
            DriverEvent::Inbound { correlation, text } => {
                EventModel::Inbound { correlation: *correlation, text: text@ }
            },
            DriverEvent::InboundInvalid { kind, detail } => {
                EventModel::InboundInvalid { kind: *kind, detail: detail@ }
            },
            DriverEvent::WriteResult { ok, detail } => {
                EventModel::WriteResult { ok: *ok, detail: detail@ }
            },
            DriverEvent::CloseResult { ok, detail } => {
                EventModel::CloseResult { ok: *ok, detail: detail@ }
            },
            DriverEvent::DeliverResult { ok } => EventModel::DeliverResult { ok: *ok },
        }
    }
}

impl<S> DriverAction<S> {
    /// The abstract value of this action.
    pub open spec fn model(&self) -> ActionModel<S> {
        match self {
            DriverAction::Write { message } => ActionModel::Write { message: message@ },
            DriverAction::Close => ActionModel::Close,
            DriverAction::Resolve { slot, text } => {
                ActionModel::Resolve { slot: *slot, text: text@ }
            },
            DriverAction::Emit { text } => ActionModel::Emit { text: text@ },
            DriverAction::Halt { result } => {
                ActionModel::Halt {
                    result: match result {
                        Result::Ok(u) => Result::Ok(*u),
                        Result::Err(e) => Result::Err(e.model()),
                    },
                }
            },
            DriverAction::Proceed => ActionModel::Proceed,
        }
    }
}

/// The message of the error that rejects a duplicate correlation id.
pub open spec fn duplicate_id_text() -> Seq<char> {
    "duplicate request id"@
}

/// The message of the error raised when a delivery outcome reports failure.
pub open spec fn deliver_failed_text(phase: Phase) -> Seq<char> {
    match phase {
        Phase::Delivering(DeliverTarget::Channel) => "failed to broadcast response (mailbox)"@,
        _ => "failed to broadcast response (oneshot)"@,
    }
}

/// Which inputs the driver is ready for in each phase: commands and inbound
/// traffic while running, and in each waiting phase exactly the outcome it
/// asked for.
pub open spec fn accepts<S>(phase: Phase, event: EventModel<S>) -> bool {
    match event {
        EventModel::CmdSend { .. } => phase == Phase::Running,
        EventModel::CmdStop => phase == Phase::Running,
        EventModel::CmdKill => phase == Phase::Running,
        EventModel::Inbound { .. } => phase == Phase::Running,
        EventModel::InboundInvalid { .. } => phase == Phase::Running,
        EventModel::WriteResult { .. } => phase == Phase::Sending,
        EventModel::CloseResult { .. } => phase == Phase::Closing,
        EventModel::DeliverResult { .. } => phase matches Phase::Delivering(_),
    }
}

/// The transition of the driver: from a state and one input to the next
/// state and the action the runner must perform.
pub open spec fn step_spec<S>(pre: DriverModel<S>, event: EventModel<S>) -> (DriverModel<S>,
    ActionModel<S>) {
    match event {
        EventModel::CmdSend { request, message, slot } => {
            if seq_contains_id(pre.pending, request) {
                (
                    DriverModel { phase: Phase::Done, pending: pre.pending },
                    ActionModel::Halt {
                        result: Result::Err(
                            ErrorModel {
                                kind: ErrorKind::ChannSend,
                                source: SourceModel::Text(duplicate_id_text()),
                            },
                        ),
                    },
                )
            } else {
                (
                    DriverModel {
                        phase: Phase::Sending,
                        pending: pre.pending.push((request, slot)),
                    },
                    ActionModel::Write { message },
                )
            }
        },
        EventModel::CmdStop => (
            DriverModel { phase: Phase::Closing, pending: pre.pending },
            ActionModel::Close,
        ),
        EventModel::CmdKill => (
            DriverModel { phase: Phase::Done, pending: pre.pending },
            ActionModel::Halt { result: Result::Ok(()) },
        ),
        EventModel::Inbound { correlation, text } => {
            if seq_contains_id(pre.pending, correlation) {
                (
                    DriverModel {
                        phase: Phase::Delivering(DeliverTarget::Slot),
                        pending: seq_remove_id(pre.pending, correlation),
                    },
                    ActionModel::Resolve { slot: seq_slot_of(pre.pending, correlation), text },
                )
            } else {
                (
                    DriverModel {
                        phase: Phase::Delivering(DeliverTarget::Channel),
                        pending: pre.pending,
                    },
                    ActionModel::Emit { text },
                )
            }
        },
        EventModel::InboundInvalid { kind, detail } => (
            DriverModel { phase: Phase::Done, pending: pre.pending },
            ActionModel::Halt {
                result: Result::Err(ErrorModel { kind, source: SourceModel::Wrapped(detail) }),
            },
        ),
        EventModel::WriteResult { ok, detail } => {
            if ok {
                (DriverModel { phase: Phase::Running, pending: pre.pending }, ActionModel::Proceed)
            } else {
                (
                    DriverModel { phase: Phase::Done, pending: pre.pending },
                    ActionModel::Halt {
                        result: Result::Err(
                            ErrorModel {
                                kind: ErrorKind::ChannSend,
                                source: SourceModel::Wrapped(detail),
                            },
                        ),
                    },
                )
            }
        },
        EventModel::CloseResult { ok, detail } => {
            if ok {
                (
                    DriverModel { phase: Phase::Done, pending: pre.pending },
                    ActionModel::Halt { result: Result::Ok(()) },
                )
            } else {
                (
                    DriverModel { phase: Phase::Done, pending: pre.pending },
                    ActionModel::Halt {
                        result: Result::Err(
                            ErrorModel {
                                kind: ErrorKind::Socket,
                                source: SourceModel::Wrapped(detail),
                            },
                        ),
                    },
                )
            }
        },
        EventModel::DeliverResult { ok } => {
            if ok {
                (DriverModel { phase: Phase::Running, pending: pre.pending }, ActionModel::Proceed)
            } else {
                (
                    DriverModel { phase: Phase::Done, pending: pre.pending },
                    ActionModel::Halt {
                        result: Result::Err(
                            ErrorModel {
                                kind: ErrorKind::ChannSend,
                                source: SourceModel::Text(deliver_failed_text(pre.phase)),
                            },
                        ),
                    },
                )
            }
        },
    }
}

/// Law (correlation correctness): with requests `a` and `b` both
/// outstanding, responses may arrive b-then-a and each still resolves its
/// own caller's slot — matching is by identity, never by arrival order.
pub proof fn lemma_correlation_correctness<S>(
    m: DriverModel<S>,
    a: RequestID,
    b: RequestID,
    ta: Seq<char>,
    tb: Seq<char>,
)
    requires
        m.phase == Phase::Running,
        ids_distinct(m.pending),
        seq_contains_id(m.pending, a),
        seq_contains_id(m.pending, b),
        a != b,
    ensures
        ({
            let (m1, act1) = step_spec(m, EventModel::Inbound { correlation: b, text: tb });
            let (m2, act2) = step_spec(m1, EventModel::<S>::DeliverResult { ok: true });
            let (m3, act3) = step_spec(m2, EventModel::Inbound { correlation: a, text: ta });
            &&& act1 == (ActionModel::Resolve { slot: seq_slot_of(m.pending, b), text: tb })
            &&& act3 == (ActionModel::Resolve { slot: seq_slot_of(m.pending, a), text: ta })
        }),
{
    lemma_remove_preserves_others(m.pending, a, b);
}

/// Law (uncorrelated routing): an inbound message whose correlation id is
/// untracked never resolves any caller's slot — it is forwarded to the event
/// channel with the tracked requests untouched; and two such messages are
/// forwarded in arrival order.
pub proof fn lemma_uncorrelated_routing<S>(
    m: DriverModel<S>,
    id1: RequestID,
    t1: Seq<char>,
    id2: RequestID,
    t2: Seq<char>,
)
    requires
        m.phase == Phase::Running,
        !seq_contains_id(m.pending, id1),
        !seq_contains_id(m.pending, id2),
    ensures
        ({
            let (m1, act1) = step_spec(m, EventModel::Inbound { correlation: id1, text: t1 });
            let (m2, act2) = step_spec(m1, EventModel::<S>::DeliverResult { ok: true });
            let (m3, act3) = step_spec(m2, EventModel::Inbound { correlation: id2, text: t2 });
            &&& act1 == (ActionModel::<S>::Emit { text: t1 })
            &&& m1.pending == m.pending
            &&& act3 == (ActionModel::<S>::Emit { text: t2 })
            &&& m3.pending == m.pending
        }),
{
}

/// Law (tracking precedes writing): a fresh send command tracks the caller's
/// slot in the same step that requests the transport write, so by the time
/// any response can arrive, the request is already tracked.
pub proof fn lemma_tracked_before_write<S>(
    m: DriverModel<S>,
    id: RequestID,
    message: Seq<char>,
    slot: S,
)
    requires
        m.phase == Phase::Running,
        !seq_contains_id(m.pending, id),
    ensures
        ({
            let (m1, act) = step_spec(m, EventModel::CmdSend { request: id, message, slot });
            &&& act == (ActionModel::<S>::Write { message })
            &&& m1.pending == m.pending.push((id, slot))
            &&& seq_contains_id(m1.pending, id)
        }),
{
    let m1 = step_spec(m, EventModel::CmdSend { request: id, message, slot }).0;
    assert(m1.pending[m.pending.len() as int].0 == id);
}

/// Run a batch of inbound messages through the driver, each forward
/// acknowledged as delivered: the resulting state and the texts forwarded to
/// the event channel, in order.
pub open spec fn run_inbound<S>(m: DriverModel<S>, msgs: Seq<(RequestID, Seq<char>)>) -> (
    DriverModel<S>,
    Seq<Seq<char>>,
)
    decreases msgs.len(),
{
    if msgs.len() == 0 {
        (m, Seq::empty())
    } else {
        let (m1, first) = step_spec(
            m,
            EventModel::Inbound { correlation: msgs[0].0, text: msgs[0].1 },
        );
        let (m2, _acked) = step_spec(m1, EventModel::<S>::DeliverResult { ok: true });
        let (mf, rest) = run_inbound(m2, msgs.drop_first());
        (
            mf,
            match first {
                ActionModel::Emit { text } => seq![text] + rest,
                _ => rest,
            },
        )
    }
}

/// Law (uncorrelated routing, any batch): a run of inbound messages none of
/// which matches a tracked request forwards every one of them to the event
/// channel, in arrival order, and leaves the tracked requests untouched.
pub proof fn lemma_uncorrelated_run_keeps_order<S>(
    m: DriverModel<S>,
    msgs: Seq<(RequestID, Seq<char>)>,
)
    requires
        m.phase == Phase::Running,
        forall|i: int| 0 <= i < msgs.len() ==> !seq_contains_id(m.pending, msgs[i].0),
    ensures
        run_inbound(m, msgs).0 == (DriverModel { phase: Phase::Running, pending: m.pending }),
        run_inbound(m, msgs).1 == msgs.map_values(|p: (RequestID, Seq<char>)| p.1),
    decreases msgs.len(),
{
    if msgs.len() == 0 {
        assert(run_inbound(m, msgs).1 =~= msgs.map_values(|p: (RequestID, Seq<char>)| p.1));
    } else {
        let (m1, first) = step_spec(
            m,
            EventModel::Inbound { correlation: msgs[0].0, text: msgs[0].1 },
        );
        let (m2, _acked) = step_spec(m1, EventModel::<S>::DeliverResult { ok: true });
        assert(first == (ActionModel::<S>::Emit { text: msgs[0].1 }));
        assert(m2 == (DriverModel { phase: Phase::Running, pending: m.pending }));
        assert(forall|i: int|
            0 <= i < msgs.drop_first().len() ==> !seq_contains_id(
                m.pending,
                #[trigger] msgs.drop_first()[i].0,
            ));
        lemma_uncorrelated_run_keeps_order(m2, msgs.drop_first());
        assert(run_inbound(m, msgs).1 =~= msgs.map_values(|p: (RequestID, Seq<char>)| p.1));
    }
}

/// Law (duplicate tracking rejection): a send command whose correlation id is
/// already tracked halts the session with an error; the tracked entry it
/// collides with is never overwritten.
pub proof fn lemma_duplicate_tracking_rejected<S>(
    m: DriverModel<S>,
    id: RequestID,
    message: Seq<char>,
    slot: S,
)
    requires
        m.phase == Phase::Running,
        seq_contains_id(m.pending, id),
    ensures
        ({
            let (m1, act) = step_spec(m, EventModel::CmdSend { request: id, message, slot });
            &&& m1.pending == m.pending
            &&& m1.phase == Phase::Done
            &&& act == (ActionModel::<S>::Halt {
                result: Result::Err(
                    ErrorModel {
                        kind: ErrorKind::ChannSend,
                        source: SourceModel::Text(duplicate_id_text()),
                    },
                ),
            })
        }),
{
}

/// Law (graceful shutdown): a graceful stop first asks for a clean transport
/// close, and the session terminates successfully only once that close
/// succeeded; a failed close becomes the terminal error.
pub proof fn lemma_graceful_shutdown<S>(m: DriverModel<S>, detail: Seq<char>)
    requires
        m.phase == Phase::Running,
    ensures
        ({
            let (m1, act1) = step_spec(m, EventModel::<S>::CmdStop);
            let (m2, act2) = step_spec(m1, EventModel::<S>::CloseResult { ok: true, detail });
            let (m3, act3) = step_spec(m1, EventModel::<S>::CloseResult { ok: false, detail });
            &&& act1 == ActionModel::<S>::Close
            &&& m1.phase == Phase::Closing
            &&& m2.phase == Phase::Done
            &&& act2 == (ActionModel::<S>::Halt { result: Result::Ok(()) })
            &&& m3.phase == Phase::Done
            &&& act3 == (ActionModel::<S>::Halt {
                result: Result::Err(
                    ErrorModel { kind: ErrorKind::Socket, source: SourceModel::Wrapped(detail) },
                ),
            })
        }),
{
}

/// Law (forced shutdown): a forced kill terminates the session successfully
/// at once, asks for no transport close, and leaves every tracked slot in
/// place to be given up, so still-awaiting callers observe cancellation
/// rather than a hang.
pub proof fn lemma_forced_shutdown<S>(m: DriverModel<S>)
    requires
        m.phase == Phase::Running,
    ensures
        ({
            let (m1, act) = step_spec(m, EventModel::<S>::CmdKill);
            &&& m1.phase == Phase::Done
            &&& m1.pending == m.pending
            &&& act == (ActionModel::<S>::Halt { result: Result::Ok(()) })
        }),
{
}

/// The driver's state: its phase and the mailbox of outstanding requests.
pub struct Driver<S> {
    phase: Phase,
    mailbox: MailBox<S>,
}

impl<S> Driver<S> {
    /// The abstract state of this driver.
    pub closed spec fn model(&self) -> DriverModel<S> {
        DriverModel { phase: self.phase, pending: self.mailbox.entries() }
    }

    /// The tracked ids are distinct.
    pub open spec fn wf(&self) -> bool {
        ids_distinct(self.model().pending)
    }

    /// A fresh driver: running, with nothing outstanding.
    pub fn new() -> (r: Driver<S>)
        ensures
            r.model().phase == Phase::Running,
            r.model().pending == Seq::<(RequestID, S)>::empty(),
            r.wf(),
    {
        Driver { phase: Phase::Running, mailbox: MailBox::new() }
    }

    /// How many requests are outstanding.
    pub fn pending_len(&self) -> (r: usize)
        ensures
            r == self.model().pending.len(),
    {
        self.mailbox.len()
    }

    /// Apply one ready input: move to the next state and return the action
    /// the runner must perform before feeding the next input.
    pub fn process(&mut self, event: DriverEvent<S>) -> (r: DriverAction<S>)
        requires
            old(self).wf(),
            accepts(old(self).model().phase, event.model()),
        ensures
            final(self).wf(),
            final(self).model() == step_spec(old(self).model(), event.model()).0,
            r.model() == step_spec(old(self).model(), event.model()).1,
    {
        match event {
            DriverEvent::Command(command) => match command {
                Command::SendRequest { request, message, slot } => {
                    if self.mailbox.is_tracked(request) {
                        self.phase = Phase::Done;
                        DriverAction::Halt {
                            result: Result::Err(
                                ChannelError::msg(
                                    ErrorKind::ChannSend,
                                    "duplicate request id".to_owned(),
                                ),
                            ),
                        }
                    } else {
                        self.mailbox.track(request, slot);
                        self.phase = Phase::Sending;
                        DriverAction::Write { message }
                    }
                },
                Command::ShutdownGraceful => {
                    self.phase = Phase::Closing;
                    DriverAction::Close
                },
                Command::ShutdownForced => {
                    self.phase = Phase::Done;
                    DriverAction::Halt { result: Result::Ok(()) }
                },
            },
            DriverEvent::Inbound { correlation, text } => {
                match self.mailbox.take(correlation) {
                    Option::Some(slot) => {
                        self.phase = Phase::Delivering(DeliverTarget::Slot);
                        DriverAction::Resolve { slot, text }
                    },
                    Option::None => {
                        self.phase = Phase::Delivering(DeliverTarget::Channel);
                        DriverAction::Emit { text }
                    },
                }
            },
            DriverEvent::InboundInvalid { kind, detail } => {
                self.phase = Phase::Done;
                DriverAction::Halt { result: Result::Err(ChannelError::new(kind, detail)) }
            },
            DriverEvent::WriteResult { ok, detail } => {
                if ok {
                    self.phase = Phase::Running;
                    DriverAction::Proceed
                } else {
                    self.phase = Phase::Done;
                    DriverAction::Halt {
                        result: Result::Err(ChannelError::new(ErrorKind::ChannSend, detail)),
                    }
                }
            },
            DriverEvent::CloseResult { ok, detail } => {
                if ok {
                    self.phase = Phase::Done;
                    DriverAction::Halt { result: Result::Ok(()) }
                } else {
                    self.phase = Phase::Done;
                    DriverAction::Halt {
                        result: Result::Err(ChannelError::new(ErrorKind::Socket, detail)),
                    }
                }
            },
            DriverEvent::DeliverResult { ok } => {
                if ok {
                    self.phase = Phase::Running;
                    DriverAction::Proceed
                } else {
                    let text = match self.phase {
                        Phase::Delivering(DeliverTarget::Channel) => {
                            "failed to broadcast response (mailbox)".to_owned()
                        },
                        _ => "failed to broadcast response (oneshot)".to_owned(),
                    };
                    self.phase = Phase::Done;
                    DriverAction::Halt {
                        result: Result::Err(ChannelError::msg(ErrorKind::ChannSend, text)),
                    }
                }
            },
        }
    }

    /// Terminate: give up every still-tracked slot, in tracking order, so the
    /// runner can drop them and every still-awaiting caller observes
    /// cancellation rather than a hang.
    pub fn finish(self) -> (r: Vec<S>)
        ensures
            r@ == self.model().pending.map_values(|e: (RequestID, S)| e.1),
    {
        self.mailbox.into_slots()
    }
}

} // verus!
