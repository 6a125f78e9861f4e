//! The client session: [`SgcClient`].
//!
//! A session owns the descriptors that the daemon grants, one canonical
//! descriptor per resource, and lends duplicates of them. A canonical
//! descriptor is closed when its resource is revoked, replaced, or lost with the
//! connection.
use std::collections::VecDeque;

use vstd::prelude::*;

use crate::driver::{
    effect_views, Action, ActionView, Effect, EffectView, Note, NoteView, Outcome, Reply, SgcEvent,
    SgcEventView, Step,
};
use crate::error::{IoError, SgcError, SgcErrorView};
use crate::frame::{FrameReader, Received};
use crate::lease::{
    canonical, descriptors, holds, is_lease_table, lemma_resources, resources, LeaseTable,
};
use crate::protocol::{
    request_frame, serialize_framed, ClientRequest, ProtocolError, Resource, ServerMessage,
};
use crate::session::{
    close_all, close_unexpected, granted_fds, noted, send, ClientView, NewsView, Operation, PhaseView, Session, Turn,
};
use crate::wait::{poll_readable, poll_timeout_ms, reply_wait_left_nanos, Readiness};

verus! {

/// What the driver is busy with.
#[derive(Debug)]
enum Phase {
    Idle,
    Opening,
    Writing { resource: Resource },
    Timing { resource: Resource },
    Polling { operation: Operation, timeout_ms: i32 },
    Receiving { operation: Operation, reader: FrameReader },
    Duplicating { operation: Operation, resource: Resource },
    Dispatching,
}

impl Phase {
    spec fn model(&self) -> PhaseView {
        match *self {
            Phase::Idle => PhaseView::Idle,
            Phase::Opening => PhaseView::Opening,
            Phase::Writing { resource } => PhaseView::Writing { resource },
            Phase::Timing { resource } => PhaseView::Timing { resource },
            Phase::Polling { operation, timeout_ms } => PhaseView::Polling {
                operation,
                timeout_ms,
            },
            Phase::Receiving { operation, reader } => PhaseView::Receiving {
                operation,
                frame: reader@,
            },
            Phase::Duplicating { operation, resource } => PhaseView::Duplicating {
                operation,
                resource,
            },
            Phase::Dispatching => PhaseView::Dispatching,
        }
    }
}

/// What a message came to.
#[derive(Debug)]
pub enum News {
    /// An event for the application.
    Event {
        /// The event.
        event: SgcEvent,
    },
    /// A resource was granted; the application gets a duplicate of `fd`.
    Lend {
        /// The resource granted.
        resource: Resource,
        /// Its canonical descriptor.
        fd: i32,
    },
    /// Nothing that concerns the application.
    Nothing,
}

impl View for News {
    type V = NewsView;

    open spec fn view(&self) -> NewsView {
        match *self {
            News::Event { event } => NewsView::Event { event: event@ },
            News::Lend { resource, fd } => NewsView::Lend { resource, fd },
            News::Nothing => NewsView::Nothing,
        }
    }
}

/// A message, taken in.
#[derive(Debug)]
pub struct Handled {
    /// What the driver has to do about it, in order.
    pub effects: Vec<Effect>,
    /// What it came to.
    pub news: News,
}

/// A connected session, driven by one thread.
#[derive(Debug)]
pub struct SgcClient {
    /// The canonical descriptors, owned by the session.
    held: LeaseTable,
    /// Events that arrived while an acquire waited for its reply.
    pending: VecDeque<SgcEvent>,
    /// The error that ended the connection, until it has been told.
    fatal: Option<SgcError>,
    /// What the driver is busy with.
    phase: Phase,
}

/// The events of a queue, as a sequence of views.
pub open spec fn event_views(events: Seq<SgcEvent>) -> Seq<SgcEventView> {
    events.map_values(|event: SgcEvent| event@)
}

/// An error that may be there, as a view.
pub open spec fn error_view(error: Option<SgcError>) -> Option<SgcErrorView> {
    match error {
        Some(error) => Some(error@),
        None => None,
    }
}

impl View for SgcClient {
    type V = ClientView;

    closed spec fn view(&self) -> ClientView {
        ClientView {
            session: Session {
                held: self.held@,
                pending: event_views(self.pending@),
                fatal: error_view(self.fatal),
            },
            phase: self.phase.model(),
        }
    }
}

/// The permission to duplicate a canonical descriptor, for a borrower.
#[derive(Debug)]
pub struct Loan {
    /// The descriptor to duplicate.
    pub fd: i32,
}

impl Loan {
    /// Turns the result of the duplication into the result of the loan.
    pub fn complete(self, duplicated: Result<i32, IoError>) -> (lent: Result<i32, SgcError>)
        ensures
            match duplicated {
                Ok(fd) => lent == Ok::<i32, SgcError>(fd),
                Err(error) => lent == Err::<i32, SgcError>(SgcError::Io(error)),
            },
    {
        match duplicated {
            Ok(fd) => Ok(fd),
            Err(error) => Err(SgcError::Io(error)),
        }
    }
}

/// The effects that close these descriptors.
pub fn close_fds(fds: Vec<i32>) -> (effects: Vec<Effect>)
    ensures
        effect_views(effects@) == close_all(fds@),
{
    let mut effects: Vec<Effect> = Vec::new();
    let mut i: usize = 0;
    while i < fds.len()
        invariant
            i <= fds@.len(),
            effect_views(effects@) == close_all(fds@.take(i as int)),
        decreases fds@.len() - i,
    {
        let ghost before = effects@;
        effects.push(Effect::Close { fd: fds[i] });
        assert(effect_views(effects@) == effect_views(before).push(
            EffectView::Close { fd: fds@[i as int] },
        ));
        assert(fds@.take(i + 1) == fds@.take(i as int).push(fds@[i as int]));
        assert(close_all(fds@.take(i + 1)) == close_all(fds@.take(i as int)).push(
            EffectView::Close { fd: fds@[i as int] },
        ));
        i += 1;
    }
    assert(fds@.take(i as int) == fds@);
    effects
}

/// The effects that note something and then close these descriptors.
fn note_and_close(note: Note, fds: Vec<i32>) -> (effects: Vec<Effect>)
    ensures
        effect_views(effects@) == seq![noted(note@)] + close_all(fds@),
{
    let mut effects: Vec<Effect> = vec![Effect::Note { note }];
    let mut closing = close_fds(fds);
    let ghost parts = (effects@, closing@);
    effects.append(&mut closing);
    assert(effect_views(effects@) == effect_views(parts.0) + effect_views(parts.1));
    assert(effect_views(parts.0) == seq![noted(note@)]);
    effects
}

/// The bytes to write for a request.
fn write_frame(request: ClientRequest) -> (frame: Result<Vec<u8>, SgcError>)
    ensures
        frame is Ok,
        frame->Ok_0@ == request_frame(request),
{
    match serialize_framed(request) {
        Ok(frame) => Ok(frame),
        Err(text) => Err(SgcError::Protocol(ProtocolError::Encode(text))),
    }
}

/// Adds to `effects` that a request is sent, whatever comes of it.
fn send_request(effects: &mut Vec<Effect>, request: ClientRequest)
    ensures
        effect_views(final(effects)@) == effect_views(old(effects)@).push(send(request)),
{
    if let Ok(frame) = write_frame(request) {
        effects.push(Effect::Send { frame });
        assert(effect_views(effects@) == effect_views(old(effects)@).push(send(request)));
    }
}

/// Adds to `effects` that a descriptor is closed, if there is one.
fn close_fd(effects: &mut Vec<Effect>, fd: Option<i32>)
    ensures
        effect_views(final(effects)@) == effect_views(old(effects)@) + match fd {
            Some(fd) => seq![EffectView::Close { fd }],
            None => Seq::empty(),
        },
{
    if let Some(fd) = fd {
        effects.push(Effect::Close { fd });
    }
    assert(effect_views(effects@) == effect_views(old(effects)@) + match fd {
        Some(fd) => seq![EffectView::Close { fd }],
        None => Seq::empty(),
    });
}

impl SgcClient {
    /// No resource is held twice, and a frame that is being read is the
    /// beginning of one.
    pub open spec fn wf(&self) -> bool {
        is_lease_table(self@.session.held) && self.is_reading_well()
    }

    /// A frame that is being read is the beginning of one.
    pub closed spec fn is_reading_well(&self) -> bool {
        self.phase matches Phase::Receiving { reader, .. } ==> reader.wf()
    }

    /// Whether the session and the step are what the model says.
    spec fn took(&self, step: Step, turn: Turn) -> bool {
        self.wf() && self@ == turn.client && step@ == turn.step
    }

    /// Asks something of the driver.
    fn ask(&mut self, phase: Phase, effects: Vec<Effect>, action: Action) -> (step: Step)
        requires
            old(self).held.wf(),
            phase matches Phase::Receiving { reader, .. } ==> reader.wf(),
        ensures
            final(self).took(
                step,
                old(self)@.session.ask(phase.model(), effect_views(effects@), action@),
            ),
    {
        self.phase = phase;
        Step { effects, action }
    }

    /// Ends the operation.
    fn finish(&mut self, effects: Vec<Effect>, outcome: Outcome) -> (step: Step)
        requires
            old(self).held.wf(),
        ensures
            final(self).took(
                step,
                old(self)@.session.finish(effect_views(effects@), outcome@),
            ),
    {
        self.ask(Phase::Idle, effects, Action::Finish { outcome })
    }

    /// Ends the operation with an error.
    fn fail(&mut self, effects: Vec<Effect>, error: SgcError) -> (step: Step)
        requires
            old(self).held.wf(),
        ensures
            final(self).took(step, old(self)@.session.fail(effect_views(effects@), error@)),
    {
        self.finish(effects, Outcome::Failed { error })
    }

    /// Reads on in a frame.
    fn read(&mut self, operation: Operation, reader: FrameReader) -> (step: Step)
        requires
            old(self).held.wf(),
            reader.wf(),
        ensures
            final(self).took(step, old(self)@.session.read(operation, reader@)),
    {
        let len: usize = reader.wanted();
        let step = self.ask(
            Phase::Receiving { operation, reader },
            Vec::new(),
            Action::Receive { len },
        );
        assert(step@.effects == Seq::<EffectView>::empty());
        step
    }

    /// Gives an event to the caller, or keeps it for the pump if the caller
    /// waits for something else.
    fn deliver(&mut self, operation: Operation, event: SgcEvent, effects: Vec<Effect>) -> (step:
        Step)
        requires
            old(self).held.wf(),
        ensures
            final(self).took(
                step,
                old(self)@.session.deliver(operation, event@, effect_views(effects@)),
            ),
    {
        match operation {
            Operation::Acquire { resource } => {
                self.pending.push_back(event);
                assert(event_views(self.pending@) == event_views(old(self).pending@).push(
                    event@,
                ));
                self.ask(Phase::Timing { resource }, effects, Action::Clock)
            },
            Operation::EventLoop => self.ask(
                Phase::Dispatching,
                effects,
                Action::Dispatch { event },
            ),
            _ => self.finish(effects, Outcome::Event { event }),
        }
    }

    /// Goes on without an event.
    fn pass(&mut self, operation: Operation, effects: Vec<Effect>) -> (step: Step)
        requires
            old(self).held.wf(),
        ensures
            final(self).took(
                step,
                old(self)@.session.pass(operation, effect_views(effects@)),
            ),
    {
        match operation {
            Operation::Acquire { resource } => self.ask(
                Phase::Timing { resource },
                effects,
                Action::Clock,
            ),
            Operation::EventLoop => self.next_event(operation, poll_timeout_ms(None), effects),
            _ => self.finish(effects, Outcome::NoEvent),
        }
    }

    /// Looks for the next event: those kept aside come first, then what the end
    /// of the connection means, and only then the socket.
    fn next_event(&mut self, operation: Operation, timeout_ms: i32, effects: Vec<Effect>) -> (step:
        Step)
        requires
            old(self).held.wf(),
        ensures
            final(self).took(
                step,
                old(self)@.session.pump(operation, timeout_ms, effect_views(effects@)),
            ),
    {
        if let Some(event) = self.pending.pop_front() {
            assert(event_views(self.pending@) == event_views(old(self).pending@).drop_first());
            return self.deliver(operation, event, effects);
        }
        if self.fatal.is_some() {
            return self.drain_disconnect(operation, effects);
        }
        self.ask(
            Phase::Polling { operation, timeout_ms },
            effects,
            Action::Poll { timeout_ms },
        )
    }

    /// After the end of the connection: takes one resource away that is still
    /// held, or tells the error once none is.
    fn drain_disconnect(&mut self, operation: Operation, effects: Vec<Effect>) -> (step: Step)
        requires
            old(self).held.wf(),
            old(self)@.session.fatal is Some,
        ensures
            final(self).took(
                step,
                old(self)@.session.drain_disconnect(operation, effect_views(effects@)),
            ),
    {
        let mut effects = effects;
        let ghost before = effects@;
        if let Some(lease) = self.held.pop() {
            effects.push(Effect::Close { fd: lease.fd });
            assert(effect_views(effects@) == effect_views(before).push(
                EffectView::Close { fd: lease.fd },
            ));
            return self.deliver(
                operation,
                SgcEvent::Revoked { resource: lease.resource },
                effects,
            );
        }
        let fatal = self.fatal.take();
        self.fail(effects, fatal.unwrap())
    }

    /// The connection is over.
    fn begin_disconnect(&mut self, operation: Operation, error: SgcError, effects: Vec<Effect>) -> (step:
        Step)
        requires
            old(self).held.wf(),
        ensures
            final(self).took(
                step,
                old(self)@.session.begin_disconnect(operation, error@, effect_views(effects@)),
            ),
    {
        self.fatal = Some(error);
        self.drain_disconnect(operation, effects)
    }

    /// The socket failed, or a frame could not be read. Only a pump ends the
    /// session over it: an acquire fails, and the next pump finds the connection
    /// dead itself.
    fn read_failed(&mut self, operation: Operation, error: SgcError, effects: Vec<Effect>) -> (step:
        Step)
        requires
            old(self).held.wf(),
        ensures
            final(self).took(
                step,
                old(self)@.session.read_failed(operation, error@, effect_views(effects@)),
            ),
    {
        match operation {
            Operation::Pump { .. } | Operation::EventLoop => self.begin_disconnect(
                operation,
                error,
                effects,
            ),
            _ => self.fail(effects, error),
        }
    }

    /// Takes a message in: changes what the session holds and says what the
    /// driver has to do and what the application has to hear.
    ///
    /// A revoke ends the lease, closes every descriptor concerned and answers
    /// `Release`. A grant with exactly one descriptor is answered with `Ack` and
    /// replaces the lease there was; with any other number of descriptors it is
    /// passed over and they are closed. A list is news and no more. A refusal
    /// that nobody waits for is passed over. Whatever is passed over is noted,
    /// and no descriptor that comes with a message and is not kept stays open.
    pub fn handle_message(&mut self, message: ServerMessage, fds: Vec<i32>) -> (handled: Handled)
        requires
            old(self).wf(),
        ensures
            final(self).wf(),
            final(self)@.phase == old(self)@.phase,
            final(self)@.session == old(self)@.session.handle_message(message@, fds@).session,
            effect_views(handled.effects@) == old(self)@.session.handle_message(
                message@,
                fds@,
            ).effects,
            handled.news@ == old(self)@.session.handle_message(message@, fds@).news,
    {
        match message {
            ServerMessage::Revoke { resource } => {
                let canonical = self.held.remove(resource);
                let mut effects: Vec<Effect> = Vec::new();
                close_fd(&mut effects, canonical);
                let mut closing = close_fds(fds);
                let ghost parts = (effects@, closing@);
                effects.append(&mut closing);
                assert(effect_views(effects@) == effect_views(parts.0) + effect_views(parts.1));
                send_request(&mut effects, ClientRequest::Release { resource });
                assert(effect_views(effects@) == old(self)@.session.handle_message(
                    message@,
                    fds@,
                ).effects);
                Handled { effects, news: News::Event { event: SgcEvent::Revoked { resource } } }
            },
            ServerMessage::Grant { resource } => {
                if fds.len() != 1 {
                    let count: usize = fds.len();
                    return Handled {
                        effects: note_and_close(Note::GrantSkipped { count }, fds),
                        news: News::Nothing,
                    };
                }
                let fd: i32 = fds[0];
                let mut effects: Vec<Effect> = Vec::new();
                send_request(&mut effects, ClientRequest::Ack);
                let replaced = self.held.insert(resource, fd);
                close_fd(&mut effects, replaced);
                assert(effect_views(effects@) == old(self)@.session.handle_message(
                    message@,
                    fds@,
                ).effects);
                Handled { effects, news: News::Lend { resource, fd } }
            },
            ServerMessage::Advertise { available_resources } => Handled {
                effects: close_fds(fds),
                news: News::Event { event: SgcEvent::Advertised { available_resources } },
            },
            ServerMessage::Deny { reason } => {
                let message = ServerMessage::Deny { reason };
                Handled {
                    effects: note_and_close(Note::MessageSkipped { message }, fds),
                    news: News::Nothing,
                }
            },
        }
    }

    /// Takes a message in and tells the caller what it came to.
    fn relay_message(&mut self, operation: Operation, message: ServerMessage, fds: Vec<i32>) -> (step:
        Step)
        requires
            old(self).wf(),
        ensures
            final(self).took(
                step,
                old(self)@.session.relay_message(operation, message@, fds@),
            ),
    {
        let handled = self.handle_message(message, fds);
        match handled.news {
            News::Event { event } => self.deliver(operation, event, handled.effects),
            News::Lend { resource, fd } => self.ask(
                Phase::Duplicating { operation, resource },
                handled.effects,
                Action::Duplicate { fd },
            ),
            News::Nothing => self.pass(operation, handled.effects),
        }
    }

    /// Takes a frame that is there already, in place of what the driver is busy
    /// with; what came with a frame that is half read is closed.
    ///
    /// Opening the session takes the daemon's list and nothing else. An acquire
    /// takes the grant of its own resource, with its one descriptor, or a
    /// refusal; what answers something else is taken in and kept for the pump.
    /// The pump takes everything in.
    pub fn on_message(&mut self, operation: Operation, message: ServerMessage, fds: Vec<i32>) -> (step:
        Step)
        requires
            old(self).wf(),
        ensures
            final(self).wf(),
            final(self)@ == old(self)@.on_message(operation, message@, fds@).client,
            step@ == old(self)@.on_message(operation, message@, fds@).step,
    {
        let mut effects = self.give_up();
        let mut step = self.take_message(operation, message, fds);
        let ghost parts = (effects@, step.effects@);
        effects.append(&mut step.effects);
        assert(effect_views(effects@) == effect_views(parts.0) + effect_views(parts.1));
        Step { effects, action: step.action }
    }

    /// A frame is there.
    fn take_message(&mut self, operation: Operation, message: ServerMessage, fds: Vec<i32>) -> (step:
        Step)
        requires
            old(self).wf(),
        ensures
            final(self).took(step, old(self)@.session.on_message(operation, message@, fds@)),
    {
        match operation {
            Operation::Connect => {
                let count: usize = fds.len();
                let mut effects: Vec<Effect> = Vec::new();
                assert(effect_views(effects@) == Seq::<EffectView>::empty());
                if count > 0 {
                    effects = note_and_close(Note::UnexpectedDescriptors { count }, fds);
                }
                assert(effect_views(effects@) == close_unexpected(fds@));
                match message {
                    ServerMessage::Advertise { available_resources } => self.finish(
                        effects,
                        Outcome::Connected { available_resources },
                    ),
                    other => self.fail(effects, SgcError::UnexpectedMessage(other)),
                }
            },
            Operation::Acquire { .. } => match message {
                ServerMessage::Deny { reason } => self.fail(
                    close_fds(fds),
                    SgcError::Denied { reason },
                ),
                other => self.relay_message(operation, other, fds),
            },
            _ => self.relay_message(operation, message, fds),
        }
    }

    /// A wait is over.
    fn on_readiness(&mut self, operation: Operation, timeout_ms: i32, readiness: Readiness) -> (step:
        Step)
        requires
            old(self).held.wf(),
        ensures
            final(self).took(
                step,
                old(self)@.session.on_readiness(operation, timeout_ms, readiness@),
            ),
    {
        let effects: Vec<Effect> = Vec::new();
        assert(effect_views(effects@) == Seq::<EffectView>::empty());
        match readiness {
            Readiness::Readable => self.read(operation, FrameReader::new()),
            Readiness::Quiet => match operation {
                Operation::Acquire { resource } => self.fail(
                    effects,
                    SgcError::Queued { resource },
                ),
                _ => self.pass(operation, effects),
            },
            Readiness::Again => self.ask(
                Phase::Polling { operation, timeout_ms },
                effects,
                Action::Poll { timeout_ms },
            ),
            Readiness::Failed { error } => self.read_failed(
                operation,
                SgcError::Io(error),
                effects,
            ),
        }
    }

    /// A resource that was granted has been lent. An acquire that waited for it
    /// is over, and has no use for the duplicate.
    fn on_duplicated(&mut self, operation: Operation, resource: Resource, fd: i32) -> (step: Step)
        requires
            old(self).held.wf(),
        ensures
            final(self).took(step, old(self)@.session.on_duplicated(operation, resource, fd)),
    {
        if operation == (Operation::Acquire { resource }) {
            let effects: Vec<Effect> = vec![Effect::Close { fd }];
            assert(effect_views(effects@) == seq![EffectView::Close { fd }]);
            self.finish(effects, Outcome::Acquired)
        } else {
            let effects: Vec<Effect> = Vec::new();
            assert(effect_views(effects@) == Seq::<EffectView>::empty());
            self.deliver(operation, SgcEvent::Granted { resource, fd }, effects)
        }
    }

    /// A resource that was granted could not be lent: it is held all the same.
    fn on_duplicate_failed(&mut self, operation: Operation, resource: Resource, error: IoError) -> (step:
        Step)
        requires
            old(self).held.wf(),
        ensures
            final(self).took(
                step,
                old(self)@.session.on_duplicate_failed(operation, resource, error@),
            ),
    {
        let notes: Vec<Effect> = vec![Effect::Note { note: Note::LendFailed { error } }];
        assert(effect_views(notes@) == seq![noted(NoteView::LendFailed { error: error@ })]);
        if operation == (Operation::Acquire { resource }) {
            self.finish(notes, Outcome::Acquired)
        } else {
            self.pass(operation, notes)
        }
    }

    /// The clock has been read.
    fn on_elapsed(&mut self, resource: Resource, nanos: u128) -> (step: Step)
        requires
            old(self).held.wf(),
        ensures
            final(self).took(step, old(self)@.session.on_elapsed(resource, nanos)),
    {
        let effects: Vec<Effect> = Vec::new();
        assert(effect_views(effects@) == Seq::<EffectView>::empty());
        let left: u128 = reply_wait_left_nanos(nanos);
        if left == 0 {
            return self.fail(effects, SgcError::Queued { resource });
        }
        let timeout_ms: i32 = poll_timeout_ms(Some(left));
        self.ask(
            Phase::Polling { operation: Operation::Acquire { resource }, timeout_ms },
            effects,
            Action::Poll { timeout_ms },
        )
    }

    /// Goes on with the operation that is under way, now that the driver has
    /// done what the last step asked for.
    pub fn resume(&mut self, reply: Reply) -> (step: Step)
        requires
            old(self).wf(),
            old(self)@.expects(reply@),
        ensures
            final(self).wf(),
            final(self)@ == old(self)@.resume(reply@).client,
            step@ == old(self)@.resume(reply@).step,
    {
        let mut phase = Phase::Idle;
        std::mem::swap(&mut phase, &mut self.phase);
        let effects: Vec<Effect> = Vec::new();
        assert(effect_views(effects@) == Seq::<EffectView>::empty());
        match (phase, reply) {
            (Phase::Opening, Reply::Opened) => self.read(Operation::Connect, FrameReader::new()),
            (Phase::Opening, Reply::AddressRefused { error }) => self.fail(
                effects,
                SgcError::Io(error),
            ),
            (Phase::Opening, Reply::OpenFailed { error }) => self.fail(
                effects,
                SgcError::ConnectFailed(error),
            ),
            (Phase::Writing { resource }, Reply::Written) => self.ask(
                Phase::Timing { resource },
                effects,
                Action::Clock,
            ),
            (Phase::Writing { .. }, Reply::WriteFailed { error }) => self.fail(
                effects,
                SgcError::Io(error),
            ),
            (Phase::Timing { resource }, Reply::Elapsed { nanos }) => self.on_elapsed(
                resource,
                nanos,
            ),
            (Phase::Polling { operation, timeout_ms }, Reply::Polled { ready }) => {
                let readiness = poll_readable(operation.bounded(), Ok(ready));
                self.on_readiness(operation, timeout_ms, readiness)
            },
            (Phase::Polling { operation, timeout_ms }, Reply::PollFailed { error }) => {
                let readiness = poll_readable(operation.bounded(), Err(error));
                self.on_readiness(operation, timeout_ms, readiness)
            },
            (Phase::Receiving { operation, reader }, Reply::Received { bytes, fds }) => {
                match reader.receive(bytes.as_slice(), fds.as_slice()) {
                    Received::Partial { reader } => self.read(operation, reader),
                    Received::Complete { message, fds } => self.take_message(
                        operation,
                        message,
                        fds,
                    ),
                    Received::Failed { error, fds } => self.read_failed(
                        operation,
                        error,
                        close_fds(fds),
                    ),
                }
            },
            (Phase::Receiving { operation, reader }, Reply::ReceiveFailed { error }) => {
                self.read_failed(operation, SgcError::Io(error), close_fds(reader.into_fds()))
            },
            (Phase::Duplicating { operation, resource }, Reply::Duplicated { fd }) => {
                self.on_duplicated(operation, resource, fd)
            },
            (Phase::Duplicating { operation, resource }, Reply::DuplicateFailed { error }) => {
                self.on_duplicate_failed(operation, resource, error)
            },
            _ => self.next_event(Operation::EventLoop, poll_timeout_ms(None), effects),
        }
    }

    /// Gives up what the driver is busy with. What came with a frame that is
    /// half read is closed.
    fn give_up(&mut self) -> (effects: Vec<Effect>)
        requires
            old(self).held.wf(),
        ensures
            final(self).wf(),
            final(self)@.session == old(self)@.session,
            effect_views(effects@) == old(self)@.phase.give_up(),
    {
        let mut phase = Phase::Idle;
        std::mem::swap(&mut phase, &mut self.phase);
        match phase {
            Phase::Receiving { reader, .. } => close_fds(reader.into_fds()),
            _ => {
                let effects: Vec<Effect> = Vec::new();
                assert(effect_views(effects@) == Seq::<EffectView>::empty());
                effects
            },
        }
    }

    /// Opens a session with the daemon, on its abstract socket `sgc`.
    ///
    /// The operation ends with the daemon's list of resources, or with an error.
    pub fn connect() -> (opening: (SgcClient, Step))
        ensures
            opening.0.wf(),
            opening.0@ == (ClientView { session: Session::fresh(), phase: PhaseView::Opening }),
            opening.1@.effects == Seq::<EffectView>::empty(),
            opening.1@.action == (ActionView::Open { name: seq![0x73u8, 0x67, 0x63] }),
    {
        let name: [u8; 3] = [0x73, 0x67, 0x63];
        Self::connect_at(&name)
    }

    /// Like [`SgcClient::connect`], but to an abstract socket of any name. The
    /// name has no leading zero byte.
    pub fn connect_at(name: &[u8]) -> (opening: (SgcClient, Step))
        ensures
            opening.0.wf(),
            opening.0@ == (ClientView { session: Session::fresh(), phase: PhaseView::Opening }),
            opening.1@.effects == Seq::<EffectView>::empty(),
            opening.1@.action == (ActionView::Open { name: name@ }),
    {
        let client = SgcClient {
            held: LeaseTable::new(),
            pending: VecDeque::new(),
            fatal: None,
            phase: Phase::Opening,
        };
        assert(client@.session == Session::fresh());
        let mut socket: Vec<u8> = Vec::new();
        socket.extend_from_slice(name);
        assert(socket@ == name@);
        (client, Step { effects: Vec::new(), action: Action::Open { name: socket } })
    }

    /// Asks the daemon for `resource` and waits for the answer to that request.
    ///
    /// The answer need not be the next frame, and a request that the daemon
    /// queues gets none: the operation then ends with [`SgcError::Queued`]
    /// after a short wait, and the grant arrives later as an event. Frames that
    /// answer something else are kept for the pump, and a grant of the resource
    /// without its one descriptor is no answer: success means that the resource
    /// is held.
    ///
    /// An operation that is still under way is given up, here as in
    /// [`SgcClient::pump`] and [`SgcClient::start_event_loop`]; what came with a
    /// frame that is half read is then closed.
    pub fn acquire(&mut self, resource: Resource) -> (step: Step)
        requires
            old(self).wf(),
        ensures
            final(self).wf(),
            final(self)@ == old(self)@.acquire(resource).client,
            step@ == old(self)@.acquire(resource).step,
    {
        let effects = self.give_up();
        match write_frame(ClientRequest::Acquire { resource }) {
            Ok(frame) => self.ask(Phase::Writing { resource }, effects, Action::Write { frame }),
            Err(error) => self.fail(effects, error),
        }
    }

    /// Borrows `resource`: the driver duplicates the descriptor of the loan and
    /// gives the duplicate to the borrower. The session keeps the canonical.
    pub fn fd(&self, resource: &Resource) -> (loan: Result<Loan, SgcError>)
        requires
            self.wf(),
        ensures
            match loan {
                Ok(loan) => {
                    &&& holds(self@.session.held, *resource)
                    &&& loan.fd == canonical(self@.session.held, *resource)
                },
                Err(error) => {
                    &&& !holds(self@.session.held, *resource)
                    &&& error == (SgcError::NotHeld { resource: *resource })
                },
            },
    {
        match self.held.get(*resource) {
            Some(fd) => Ok(Loan { fd }),
            None => Err(SgcError::NotHeld { resource: *resource }),
        }
    }

    /// The resources this session holds, each once.
    pub fn held(&self) -> (held: Vec<Resource>)
        requires
            self.wf(),
        ensures
            held@ == resources(self@.session.held),
            held@.no_duplicates(),
            forall|resource: Resource| #[trigger]
                held@.contains(resource) <==> holds(self@.session.held, resource),
    {
        proof {
            lemma_resources(self@.session.held);
        }
        self.held.resources()
    }

    /// Looks for one event, for so many nanoseconds at most, or until there is
    /// one.
    ///
    /// Events kept aside by an acquire come first. When the connection dies,
    /// each resource still held is revoked, one per call, and then the error is
    /// told.
    pub fn pump(&mut self, timeout: Option<u128>) -> (step: Step)
        requires
            old(self).wf(),
        ensures
            final(self).wf(),
            final(self)@ == old(self)@.pump(timeout).client,
            step@ == old(self)@.pump(timeout).step,
    {
        let effects = self.give_up();
        self.next_event(
            Operation::Pump { bounded: timeout.is_some() },
            poll_timeout_ms(timeout),
            effects,
        )
    }

    /// Delivers events until the session ends: pumps without a limit, has each
    /// event dispatched, and stops at the first error.
    pub fn start_event_loop(&mut self) -> (step: Step)
        requires
            old(self).wf(),
        ensures
            final(self).wf(),
            final(self)@ == old(self)@.start_event_loop().client,
            step@ == old(self)@.start_event_loop().step,
    {
        let effects = self.give_up();
        self.next_event(Operation::EventLoop, poll_timeout_ms(None), effects)
    }

    /// Ends the session: the driver closes every canonical descriptor, every
    /// duplicate in an event that has not been told, and what came with a frame
    /// that is half read. Nothing is held afterwards and there is nothing to
    /// tell.
    pub fn close(&mut self) -> (effects: Vec<Effect>)
        requires
            old(self).wf(),
        ensures
            final(self).wf(),
            final(self)@ == (ClientView { session: Session::fresh(), phase: PhaseView::Idle }),
            effect_views(effects@) == close_all(old(self)@.owned()),
    {
        let mut fds: Vec<i32> = Vec::new();
        loop
            invariant
                self.held.wf(),
                self.pending == old(self).pending,
                self.phase == old(self).phase,
                fds@ + descriptors(self.held@) == descriptors(old(self).held@),
            ensures
                self.held@.len() == 0,
            decreases self.held@.len(),
        {
            let ghost held = self.held@;
            match self.held.pop() {
                Some(lease) => {
                    fds.push(lease.fd);
                    assert(descriptors(held) == seq![lease.fd] + descriptors(held.drop_first()));
                },
                None => {
                    break;
                },
            }
        }
        assert(fds@ == descriptors(old(self).held@));
        loop
            invariant
                self.held.wf(),
                self.held@.len() == 0,
                self.phase == old(self).phase,
                fds@ + granted_fds(event_views(self.pending@)) == old(self)@.session.owned(),
            ensures
                self.pending@.len() == 0,
            decreases self.pending@.len(),
        {
            let ghost pending = self.pending@;
            match self.pending.pop_front() {
                Some(event) => {
                    assert(event_views(self.pending@) == event_views(pending).drop_first());
                    if let SgcEvent::Granted { fd, .. } = event {
                        fds.push(fd);
                        assert(granted_fds(event_views(pending)) == seq![fd] + granted_fds(
                            event_views(self.pending@),
                        ));
                    }
                },
                None => {
                    break;
                },
            }
        }
        assert(fds@ == old(self)@.session.owned());
        self.fatal = None;
        let mut phase = Phase::Idle;
        std::mem::swap(&mut phase, &mut self.phase);
        if let Phase::Receiving { reader, .. } = phase {
            let mut rest = reader.into_fds();
            fds.append(&mut rest);
        }
        assert(fds@ == old(self)@.owned());
        close_fds(fds)
    }
}

} // verus!
