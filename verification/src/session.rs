//! The session as a machine: what each reply of the driver leads to.
//!
//! Everything here is specification. The functions of `client` are proved to do
//! what it says.
use vstd::prelude::*;

use crate::driver::{
    ActionView, EffectView, NoteView, OutcomeView, ReplyView, SgcEventView, StepView,
};
use crate::error::{IoErrorView, SgcErrorView};
use crate::frame::{FrameView, ReceivedView};
use crate::lease::{canonical, descriptors, holds, with, without, Lease};
use crate::protocol::{request_frame, ClientRequest, Resource, ServerMessageView};
use crate::wait::{
    failure_meaning, poll_timeout, ready_meaning, reply_wait_left, ReadinessView,
};

verus! {

/// What the caller asked the session to do.
#[derive(Debug, Clone, Copy, PartialEq, Eq, Structural)]
pub enum Operation {
    /// Open the session.
    Connect,
    /// Get hold of a resource.
    Acquire {
        /// The resource asked for.
        resource: Resource,
    },
    /// Deliver one event.
    Pump {
        /// Whether the wait for it has a limit.
        bounded: bool,
    },
    /// Deliver events until the session ends.
    EventLoop,
}

impl Operation {
    /// Whether a wait for the socket has a limit.
    pub open spec fn is_bounded(self) -> bool {
        match self {
            Operation::Connect => false,
            Operation::Acquire { .. } => true,
            Operation::Pump { bounded } => bounded,
            Operation::EventLoop => false,
        }
    }

    /// Whether a wait for the socket has a limit.
    pub fn bounded(&self) -> (bounded: bool)
        ensures
            bounded == self.is_bounded(),
    {
        match *self {
            Operation::Connect => false,
            Operation::Acquire { .. } => true,
            Operation::Pump { bounded } => bounded,
            Operation::EventLoop => false,
        }
    }
}

/// What the driver is busy with.
#[verifier::ext_equal]
pub enum PhaseView {
    /// Nothing: no operation is under way.
    Idle,
    /// Connecting the socket.
    Opening,
    /// Writing the request for a resource.
    Writing { resource: Resource },
    /// Reading the clock, for an acquire.
    Timing { resource: Resource },
    /// Waiting for the socket.
    Polling { operation: Operation, timeout_ms: i32 },
    /// Reading a frame.
    Receiving { operation: Operation, frame: FrameView },
    /// Duplicating the descriptor of a resource that was just granted.
    Duplicating { operation: Operation, resource: Resource },
    /// Running the application's code on an event.
    Dispatching,
}

impl PhaseView {
    /// The descriptors that came with the part of a frame that has been read.
    pub open spec fn fds(self) -> Seq<i32> {
        match self {
            PhaseView::Receiving { frame, .. } => frame.fds,
            _ => Seq::empty(),
        }
    }

    /// Closing what came with a frame that is given up half read.
    pub open spec fn give_up(self) -> Seq<EffectView> {
        match self {
            PhaseView::Receiving { frame, .. } => close_all(frame.fds),
            _ => Seq::empty(),
        }
    }
}

/// What a session is between two operations.
#[verifier::ext_equal]
pub struct Session {
    /// What the session holds, oldest lease first.
    pub held: Seq<Lease>,
    /// Events that arrived while an acquire waited for its reply.
    pub pending: Seq<SgcEventView>,
    /// The error that ended the connection, until it has been told.
    pub fatal: Option<SgcErrorView>,
}

/// A session and what its driver is busy with.
#[verifier::ext_equal]
pub struct ClientView {
    pub session: Session,
    pub phase: PhaseView,
}

/// The result of a call into the session.
#[verifier::ext_equal]
pub struct Turn {
    pub client: ClientView,
    pub step: StepView,
}

/// What a message came to.
#[verifier::ext_equal]
pub enum NewsView {
    /// An event for the application.
    Event { event: SgcEventView },
    /// A resource was granted; the application gets a duplicate of `fd`.
    Lend { resource: Resource, fd: i32 },
    /// Nothing that concerns the application.
    Nothing,
}

/// A message, taken in.
#[verifier::ext_equal]
pub struct HandledView {
    pub session: Session,
    pub effects: Seq<EffectView>,
    pub news: NewsView,
}

/// Closing all of these descriptors.
pub open spec fn close_all(fds: Seq<i32>) -> Seq<EffectView> {
    fds.map_values(|fd: i32| EffectView::Close { fd })
}

/// Closing the canonical descriptor of a resource, where it is held.
pub open spec fn close_canonical(held: Seq<Lease>, resource: Resource) -> Seq<EffectView> {
    if holds(held, resource) {
        seq![EffectView::Close { fd: canonical(held, resource) }]
    } else {
        Seq::empty()
    }
}

/// Sending a request without waiting for the result.
pub open spec fn send(request: ClientRequest) -> EffectView {
    EffectView::Send { frame: request_frame(request) }
}

/// Noting something.
pub open spec fn noted(note: NoteView) -> EffectView {
    EffectView::Note { note }
}

/// Noting and closing what came with the frame that opens the session.
pub open spec fn close_unexpected(fds: Seq<i32>) -> Seq<EffectView> {
    if fds.len() == 0 {
        Seq::empty()
    } else {
        seq![noted(NoteView::UnexpectedDescriptors { count: fds.len() })] + close_all(fds)
    }
}

/// The descriptors that events carry, in order.
pub open spec fn granted_fds(events: Seq<SgcEventView>) -> Seq<i32>
    decreases events.len(),
{
    if events.len() == 0 {
        Seq::empty()
    } else {
        match events[0] {
            SgcEventView::Granted { fd, .. } => seq![fd] + granted_fds(events.drop_first()),
            _ => granted_fds(events.drop_first()),
        }
    }
}

impl Session {
    /// A session that holds nothing and has nothing to tell.
    pub open spec fn fresh() -> Session {
        Session { held: Seq::empty(), pending: Seq::empty(), fatal: None }
    }

    /// The descriptors that the session owns between two operations: the
    /// canonical ones, then those of the events that it has not told yet.
    pub open spec fn owned(self) -> Seq<i32> {
        descriptors(self.held) + granted_fds(self.pending)
    }

    /// Asks something of the driver.
    pub open spec fn ask(
        self,
        phase: PhaseView,
        effects: Seq<EffectView>,
        action: ActionView,
    ) -> Turn {
        Turn {
            client: ClientView { session: self, phase },
            step: StepView { effects, action },
        }
    }

    /// Ends the operation.
    pub open spec fn finish(self, effects: Seq<EffectView>, outcome: OutcomeView) -> Turn {
        self.ask(PhaseView::Idle, effects, ActionView::Finish { outcome })
    }

    /// Ends the operation with an error.
    pub open spec fn fail(self, effects: Seq<EffectView>, error: SgcErrorView) -> Turn {
        self.finish(effects, OutcomeView::Failed { error })
    }

    /// Starts to read a frame.
    pub open spec fn read(self, operation: Operation, frame: FrameView) -> Turn {
        self.ask(
            PhaseView::Receiving { operation, frame },
            Seq::empty(),
            ActionView::Receive { len: frame.wanted() },
        )
    }

    /// Gives an event to the caller, or keeps it for the pump if the caller
    /// waits for something else.
    pub open spec fn deliver(
        self,
        operation: Operation,
        event: SgcEventView,
        effects: Seq<EffectView>,
    ) -> Turn {
        match operation {
            Operation::Acquire { resource } => Session {
                pending: self.pending.push(event),
                ..self
            }.ask(PhaseView::Timing { resource }, effects, ActionView::Clock),
            Operation::EventLoop => self.ask(
                PhaseView::Dispatching,
                effects,
                ActionView::Dispatch { event },
            ),
            _ => self.finish(effects, OutcomeView::Event { event }),
        }
    }

    /// Goes on without an event.
    pub open spec fn pass(self, operation: Operation, effects: Seq<EffectView>) -> Turn {
        match operation {
            Operation::Acquire { resource } => self.ask(
                PhaseView::Timing { resource },
                effects,
                ActionView::Clock,
            ),
            Operation::EventLoop => self.pump(operation, poll_timeout(None), effects),
            _ => self.finish(effects, OutcomeView::NoEvent),
        }
    }

    /// Looks for the next event: those kept aside come first, then what the end
    /// of the connection means, and only then the socket.
    pub open spec fn pump(
        self,
        operation: Operation,
        timeout_ms: i32,
        effects: Seq<EffectView>,
    ) -> Turn {
        if self.pending.len() > 0 {
            Session { pending: self.pending.drop_first(), ..self }.deliver(
                operation,
                self.pending[0],
                effects,
            )
        } else if self.fatal is Some {
            self.drain_disconnect(operation, effects)
        } else {
            self.ask(
                PhaseView::Polling { operation, timeout_ms },
                effects,
                ActionView::Poll { timeout_ms },
            )
        }
    }

    /// After the end of the connection: takes one resource away that is still
    /// held, or tells the error once none is.
    pub open spec fn drain_disconnect(
        self,
        operation: Operation,
        effects: Seq<EffectView>,
    ) -> Turn {
        if self.held.len() > 0 {
            Session { held: self.held.drop_first(), ..self }.deliver(
                operation,
                SgcEventView::Revoked { resource: self.held[0].resource },
                effects.push(EffectView::Close { fd: self.held[0].fd }),
            )
        } else {
            Session { fatal: None, ..self }.fail(effects, self.fatal->0)
        }
    }

    /// The connection is over.
    pub open spec fn begin_disconnect(
        self,
        operation: Operation,
        error: SgcErrorView,
        effects: Seq<EffectView>,
    ) -> Turn {
        Session { fatal: Some(error), ..self }.drain_disconnect(operation, effects)
    }

    /// The socket failed, or a frame could not be read. Only a pump ends the
    /// session over it: an acquire fails, and the next pump finds the connection
    /// dead itself.
    pub open spec fn read_failed(
        self,
        operation: Operation,
        error: SgcErrorView,
        effects: Seq<EffectView>,
    ) -> Turn {
        match operation {
            Operation::Pump { .. } | Operation::EventLoop => self.begin_disconnect(
                operation,
                error,
                effects,
            ),
            _ => self.fail(effects, error),
        }
    }

    /// Takes a message in.
    pub open spec fn handle_message(
        self,
        message: ServerMessageView,
        fds: Seq<i32>,
    ) -> HandledView {
        match message {
            ServerMessageView::Revoke { resource } => HandledView {
                session: Session { held: without(self.held, resource), ..self },
                effects: close_canonical(self.held, resource) + close_all(fds) + seq![
                    send(ClientRequest::Release { resource }),
                ],
                news: NewsView::Event { event: SgcEventView::Revoked { resource } },
            },
            ServerMessageView::Grant { resource } => if fds.len() == 1 {
                HandledView {
                    session: Session { held: with(self.held, resource, fds[0]), ..self },
                    effects: seq![send(ClientRequest::Ack)] + close_canonical(
                        self.held,
                        resource,
                    ),
                    news: NewsView::Lend { resource, fd: fds[0] },
                }
            } else {
                HandledView {
                    session: self,
                    effects: seq![noted(NoteView::GrantSkipped { count: fds.len() })] + close_all(
                        fds,
                    ),
                    news: NewsView::Nothing,
                }
            },
            ServerMessageView::Advertise { available_resources } => HandledView {
                session: self,
                effects: close_all(fds),
                news: NewsView::Event {
                    event: SgcEventView::Advertised { available_resources },
                },
            },
            ServerMessageView::Deny { .. } => HandledView {
                session: self,
                effects: seq![noted(NoteView::MessageSkipped { message })] + close_all(fds),
                news: NewsView::Nothing,
            },
        }
    }

    /// Takes a message in and tells the caller what it came to.
    pub open spec fn relay_message(
        self,
        operation: Operation,
        message: ServerMessageView,
        fds: Seq<i32>,
    ) -> Turn {
        let handled = self.handle_message(message, fds);
        match handled.news {
            NewsView::Event { event } => handled.session.deliver(
                operation,
                event,
                handled.effects,
            ),
            NewsView::Lend { resource, fd } => handled.session.ask(
                PhaseView::Duplicating { operation, resource },
                handled.effects,
                ActionView::Duplicate { fd },
            ),
            NewsView::Nothing => handled.session.pass(operation, handled.effects),
        }
    }

    /// A frame is there.
    pub open spec fn on_message(
        self,
        operation: Operation,
        message: ServerMessageView,
        fds: Seq<i32>,
    ) -> Turn {
        match (operation, message) {
            (
                Operation::Connect,
                ServerMessageView::Advertise { available_resources },
            ) => self.finish(
                close_unexpected(fds),
                OutcomeView::Connected { available_resources },
            ),
            (Operation::Connect, _) => self.fail(
                close_unexpected(fds),
                SgcErrorView::UnexpectedMessage(message),
            ),
            (Operation::Acquire { .. }, ServerMessageView::Deny { reason }) => self.fail(
                close_all(fds),
                SgcErrorView::Denied { reason },
            ),
            _ => self.relay_message(operation, message, fds),
        }
    }

    /// A read is done.
    pub open spec fn on_received(
        self,
        operation: Operation,
        frame: FrameView,
        bytes: Seq<u8>,
        fds: Seq<i32>,
    ) -> Turn {
        match frame.received(bytes, fds) {
            ReceivedView::Partial { frame } => self.read(operation, frame),
            ReceivedView::Complete { message, fds } => self.on_message(operation, message, fds),
            ReceivedView::Failed { error, fds } => self.read_failed(
                operation,
                error,
                close_all(fds),
            ),
        }
    }

    /// A wait is over.
    pub open spec fn on_readiness(
        self,
        operation: Operation,
        timeout_ms: i32,
        readiness: ReadinessView,
    ) -> Turn {
        match readiness {
            ReadinessView::Readable => self.read(operation, FrameView::empty()),
            ReadinessView::Quiet => match operation {
                Operation::Acquire { resource } => self.fail(
                    Seq::empty(),
                    SgcErrorView::Queued { resource },
                ),
                _ => self.pass(operation, Seq::empty()),
            },
            ReadinessView::Again => self.ask(
                PhaseView::Polling { operation, timeout_ms },
                Seq::empty(),
                ActionView::Poll { timeout_ms },
            ),
            ReadinessView::Failed { error } => self.read_failed(
                operation,
                SgcErrorView::Io(error),
                Seq::empty(),
            ),
        }
    }

    /// A resource that was granted has been lent. An acquire that waited for it
    /// is over, and has no use for the duplicate.
    pub open spec fn on_duplicated(self, operation: Operation, resource: Resource, fd: i32) -> Turn {
        if operation == (Operation::Acquire { resource }) {
            self.finish(seq![EffectView::Close { fd }], OutcomeView::Acquired)
        } else {
            self.deliver(operation, SgcEventView::Granted { resource, fd }, Seq::empty())
        }
    }

    /// A resource that was granted could not be lent: it is held all the same.
    pub open spec fn on_duplicate_failed(
        self,
        operation: Operation,
        resource: Resource,
        error: IoErrorView,
    ) -> Turn {
        let notes = seq![noted(NoteView::LendFailed { error })];
        if operation == (Operation::Acquire { resource }) {
            self.finish(notes, OutcomeView::Acquired)
        } else {
            self.pass(operation, notes)
        }
    }

    /// The clock has been read.
    pub open spec fn on_elapsed(self, resource: Resource, nanos: u128) -> Turn {
        let left = reply_wait_left(nanos);
        if left == 0 {
            self.fail(Seq::empty(), SgcErrorView::Queued { resource })
        } else {
            self.ask(
                PhaseView::Polling {
                    operation: Operation::Acquire { resource },
                    timeout_ms: poll_timeout(Some(left)),
                },
                Seq::empty(),
                ActionView::Poll { timeout_ms: poll_timeout(Some(left)) },
            )
        }
    }
}

impl ClientView {
    /// Whether a reply answers what the driver is busy with. A read brings no
    /// more bytes than it was told to take.
    pub open spec fn expects(self, reply: ReplyView) -> bool {
        match (self.phase, reply) {
            (PhaseView::Opening, ReplyView::Opened) => true,
            (PhaseView::Opening, ReplyView::AddressRefused { .. }) => true,
            (PhaseView::Opening, ReplyView::OpenFailed { .. }) => true,
            (PhaseView::Writing { .. }, ReplyView::Written) => true,
            (PhaseView::Writing { .. }, ReplyView::WriteFailed { .. }) => true,
            (PhaseView::Timing { .. }, ReplyView::Elapsed { .. }) => true,
            (PhaseView::Polling { .. }, ReplyView::Polled { .. }) => true,
            (PhaseView::Polling { .. }, ReplyView::PollFailed { .. }) => true,
            (PhaseView::Receiving { frame, .. }, ReplyView::Received { bytes, .. }) => {
                bytes.len() <= frame.wanted()
            },
            (PhaseView::Receiving { .. }, ReplyView::ReceiveFailed { .. }) => true,
            (PhaseView::Duplicating { .. }, ReplyView::Duplicated { .. }) => true,
            (PhaseView::Duplicating { .. }, ReplyView::DuplicateFailed { .. }) => true,
            (PhaseView::Dispatching, ReplyView::Dispatched) => true,
            _ => false,
        }
    }

    /// What a reply leads to.
    pub open spec fn resume(self, reply: ReplyView) -> Turn
        recommends
            self.expects(reply),
    {
        let session = self.session;
        match (self.phase, reply) {
            (PhaseView::Opening, ReplyView::Opened) => session.read(
                Operation::Connect,
                FrameView::empty(),
            ),
            (PhaseView::Opening, ReplyView::AddressRefused { error }) => session.fail(
                Seq::empty(),
                SgcErrorView::Io(error),
            ),
            (PhaseView::Opening, ReplyView::OpenFailed { error }) => session.fail(
                Seq::empty(),
                SgcErrorView::ConnectFailed(error),
            ),
            (PhaseView::Writing { resource }, ReplyView::Written) => session.ask(
                PhaseView::Timing { resource },
                Seq::empty(),
                ActionView::Clock,
            ),
            (PhaseView::Writing { .. }, ReplyView::WriteFailed { error }) => session.fail(
                Seq::empty(),
                SgcErrorView::Io(error),
            ),
            (PhaseView::Timing { resource }, ReplyView::Elapsed { nanos }) => session.on_elapsed(
                resource,
                nanos,
            ),
            (
                PhaseView::Polling { operation, timeout_ms },
                ReplyView::Polled { ready },
            ) => session.on_readiness(operation, timeout_ms, ready_meaning(ready)),
            (
                PhaseView::Polling { operation, timeout_ms },
                ReplyView::PollFailed { error },
            ) => session.on_readiness(
                operation,
                timeout_ms,
                failure_meaning(operation.is_bounded(), error),
            ),
            (
                PhaseView::Receiving { operation, frame },
                ReplyView::Received { bytes, fds },
            ) => session.on_received(operation, frame, bytes, fds),
            (
                PhaseView::Receiving { operation, .. },
                ReplyView::ReceiveFailed { error },
            ) => session.read_failed(operation, SgcErrorView::Io(error), self.phase.give_up()),
            (
                PhaseView::Duplicating { operation, resource },
                ReplyView::Duplicated { fd },
            ) => session.on_duplicated(operation, resource, fd),
            (
                PhaseView::Duplicating { operation, resource },
                ReplyView::DuplicateFailed { error },
            ) => session.on_duplicate_failed(operation, resource, error),
            _ => session.pump(Operation::EventLoop, poll_timeout(None), Seq::empty()),
        }
    }

    /// All descriptors that the session owns.
    pub open spec fn owned(self) -> Seq<i32> {
        self.session.owned() + self.phase.fds()
    }

    /// Takes a frame that is there already, in place of what the driver is busy
    /// with.
    pub open spec fn on_message(
        self,
        operation: Operation,
        message: ServerMessageView,
        fds: Seq<i32>,
    ) -> Turn {
        let turn = self.session.on_message(operation, message, fds);
        Turn {
            client: turn.client,
            step: StepView {
                effects: self.phase.give_up() + turn.step.effects,
                action: turn.step.action,
            },
        }
    }

    /// Asks the daemon for a resource.
    pub open spec fn acquire(self, resource: Resource) -> Turn {
        self.session.ask(
            PhaseView::Writing { resource },
            self.phase.give_up(),
            ActionView::Write { frame: request_frame(ClientRequest::Acquire { resource }) },
        )
    }

    /// Looks for one event, for so many nanoseconds at most.
    pub open spec fn pump(self, timeout: Option<u128>) -> Turn {
        self.session.pump(
            Operation::Pump { bounded: timeout is Some },
            poll_timeout(timeout),
            self.phase.give_up(),
        )
    }

    /// Looks for events until the session ends.
    pub open spec fn start_event_loop(self) -> Turn {
        self.session.pump(Operation::EventLoop, poll_timeout(None), self.phase.give_up())
    }
}

} // verus!
