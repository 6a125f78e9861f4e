//! What passes between a session and the code that drives its socket.
//!
//! The session decides and the driver acts. Every call into the session returns
//! a [`Step`]: effects that the driver carries out in order, then one
//! [`Action`], whose result it hands back as a [`Reply`]. An operation is over
//! with the action [`Action::Finish`].
//!
//! Descriptors are numbers here. A number that the driver hands over with
//! [`Reply::Received`] belongs to the session, which keeps it or names it in an
//! [`Effect::Close`]; one in an event belongs to the application.
use vstd::prelude::*;

use crate::error::{IoError, IoErrorView, SgcError, SgcErrorView};
use crate::protocol::{Resource, ServerMessage, ServerMessageView};

verus! {

/// What the application hears from a session.
#[derive(Debug)]
pub enum SgcEvent {
    /// The daemon took `resource` back, or the session ended: drop the
    /// descriptor and stop using the resource. The session has already closed
    /// its canonical descriptor and, unless the session ended, sent `Release`.
    Revoked {
        /// The resource that is gone.
        resource: Resource,
    },
    /// The daemon granted `resource` outside an acquire of it. The descriptor
    /// is a duplicate for the application; it replaces the one the application
    /// had. `Ack` has already been sent.
    Granted {
        /// The resource held from now on.
        resource: Resource,
        /// A duplicate of the canonical descriptor.
        fd: i32,
    },
    /// The daemon's whole list of resources, after a change.
    Advertised {
        /// The resources on offer.
        available_resources: Vec<Resource>,
    },
}

/// An [`SgcEvent`] with its list as a sequence.
#[verifier::ext_equal]
pub enum SgcEventView {
    Revoked { resource: Resource },
    Granted { resource: Resource, fd: i32 },
    Advertised { available_resources: Seq<Resource> },
}

impl View for SgcEvent {
    type V = SgcEventView;

    open spec fn view(&self) -> SgcEventView {
        match *self {
            SgcEvent::Revoked { resource } => SgcEventView::Revoked { resource },
            SgcEvent::Granted { resource, fd } => SgcEventView::Granted { resource, fd },
            SgcEvent::Advertised { available_resources } => SgcEventView::Advertised {
                available_resources: available_resources@,
            },
        }
    }
}

/// Something out of the ordinary that ends nothing: worth a line in a log.
#[derive(Debug)]
pub enum Note {
    /// The frame that opens the session brought descriptors.
    UnexpectedDescriptors {
        /// How many.
        count: usize,
    },
    /// A grant without its one descriptor was passed over.
    GrantSkipped {
        /// How many descriptors it brought.
        count: usize,
    },
    /// A message that nobody waits for was passed over.
    MessageSkipped {
        /// The message.
        message: ServerMessage,
    },
    /// A descriptor that was granted could not be duplicated.
    LendFailed {
        /// The failure.
        error: IoError,
    },
}

/// A [`Note`] with its parts as sequences.
#[verifier::ext_equal]
pub enum NoteView {
    UnexpectedDescriptors { count: nat },
    GrantSkipped { count: nat },
    MessageSkipped { message: ServerMessageView },
    LendFailed { error: IoErrorView },
}

impl View for Note {
    type V = NoteView;

    open spec fn view(&self) -> NoteView {
        match *self {
            Note::UnexpectedDescriptors { count } => NoteView::UnexpectedDescriptors {
                count: count as nat,
            },
            Note::GrantSkipped { count } => NoteView::GrantSkipped { count: count as nat },
            Note::MessageSkipped { message } => NoteView::MessageSkipped { message: message@ },
            Note::LendFailed { error } => NoteView::LendFailed { error: error@ },
        }
    }
}

/// Something to do whose result nobody waits for.
#[derive(Debug)]
pub enum Effect {
    /// Close this descriptor.
    Close {
        /// The descriptor.
        fd: i32,
    },
    /// Write this frame; a failure is passed over.
    Send {
        /// The bytes to write.
        frame: Vec<u8>,
    },
    /// Note this for whoever reads the log.
    Note {
        /// What there is to note.
        note: Note,
    },
}

/// An [`Effect`] with its parts as sequences.
#[verifier::ext_equal]
pub enum EffectView {
    Close { fd: i32 },
    Send { frame: Seq<u8> },
    Note { note: NoteView },
}

impl View for Effect {
    type V = EffectView;

    open spec fn view(&self) -> EffectView {
        match *self {
            Effect::Close { fd } => EffectView::Close { fd },
            Effect::Send { frame } => EffectView::Send { frame: frame@ },
            Effect::Note { note } => EffectView::Note { note: note@ },
        }
    }
}

/// How an operation ended.
#[derive(Debug)]
pub enum Outcome {
    /// The session is up.
    Connected {
        /// What the daemon offers at this moment.
        available_resources: Vec<Resource>,
    },
    /// The daemon granted what was asked for.
    Acquired,
    /// The pump has an event.
    Event {
        /// The event.
        event: SgcEvent,
    },
    /// The pump has no event this time.
    NoEvent,
    /// The operation failed.
    Failed {
        /// Why.
        error: SgcError,
    },
}

/// An [`Outcome`] with its parts as sequences.
#[verifier::ext_equal]
pub enum OutcomeView {
    Connected { available_resources: Seq<Resource> },
    Acquired,
    Event { event: SgcEventView },
    NoEvent,
    Failed { error: SgcErrorView },
}

impl View for Outcome {
    type V = OutcomeView;

    open spec fn view(&self) -> OutcomeView {
        match *self {
            Outcome::Connected { available_resources } => OutcomeView::Connected {
                available_resources: available_resources@,
            },
            Outcome::Acquired => OutcomeView::Acquired,
            Outcome::Event { event } => OutcomeView::Event { event: event@ },
            Outcome::NoEvent => OutcomeView::NoEvent,
            Outcome::Failed { error } => OutcomeView::Failed { error: error@ },
        }
    }
}

/// The next thing to do, and to report on.
#[derive(Debug)]
pub enum Action {
    /// Connect to the abstract socket of this name. Answer with
    /// [`Reply::Opened`], [`Reply::AddressRefused`] or [`Reply::OpenFailed`].
    Open {
        /// The name, without the leading zero byte.
        name: Vec<u8>,
    },
    /// Write the whole frame. Answer with [`Reply::Written`] or
    /// [`Reply::WriteFailed`].
    Write {
        /// The bytes to write.
        frame: Vec<u8>,
    },
    /// Tell how long ago the last [`Action::Write`] was done. Answer with
    /// [`Reply::Elapsed`].
    Clock,
    /// Wait until the socket can be read. Answer with [`Reply::Polled`] or
    /// [`Reply::PollFailed`].
    Poll {
        /// The longest wait in milliseconds; a negative number is no limit.
        timeout_ms: i32,
    },
    /// Read once. Answer with [`Reply::Received`] or [`Reply::ReceiveFailed`].
    Receive {
        /// The most bytes to take.
        len: usize,
    },
    /// Duplicate this descriptor. Answer with [`Reply::Duplicated`] or
    /// [`Reply::DuplicateFailed`].
    Duplicate {
        /// The descriptor.
        fd: i32,
    },
    /// Hand this event to the application. Answer with [`Reply::Dispatched`].
    Dispatch {
        /// The event.
        event: SgcEvent,
    },
    /// The operation is over. There is nothing to answer.
    Finish {
        /// How it ended.
        outcome: Outcome,
    },
}

/// An [`Action`] with its parts as sequences.
#[verifier::ext_equal]
pub enum ActionView {
    Open { name: Seq<u8> },
    Write { frame: Seq<u8> },
    Clock,
    Poll { timeout_ms: i32 },
    Receive { len: nat },
    Duplicate { fd: i32 },
    Dispatch { event: SgcEventView },
    Finish { outcome: OutcomeView },
}

impl View for Action {
    type V = ActionView;

    open spec fn view(&self) -> ActionView {
        match *self {
            Action::Open { name } => ActionView::Open { name: name@ },
            Action::Write { frame } => ActionView::Write { frame: frame@ },
            Action::Clock => ActionView::Clock,
            Action::Poll { timeout_ms } => ActionView::Poll { timeout_ms },
            Action::Receive { len } => ActionView::Receive { len: len as nat },
            Action::Duplicate { fd } => ActionView::Duplicate { fd },
            Action::Dispatch { event } => ActionView::Dispatch { event: event@ },
            Action::Finish { outcome } => ActionView::Finish { outcome: outcome@ },
        }
    }
}

/// What came of an action.
#[derive(Debug)]
pub enum Reply {
    /// The socket is connected.
    Opened,
    /// The name is no socket name.
    AddressRefused {
        /// The failure.
        error: IoError,
    },
    /// The connection could not be made.
    OpenFailed {
        /// The failure.
        error: IoError,
    },
    /// The frame is written.
    Written,
    /// The frame could not be written.
    WriteFailed {
        /// The failure.
        error: IoError,
    },
    /// So long ago.
    Elapsed {
        /// The time in nanoseconds.
        nanos: u128,
    },
    /// The wait is over.
    Polled {
        /// How many descriptors are ready.
        ready: i32,
    },
    /// The wait failed.
    PollFailed {
        /// The failure.
        error: IoError,
    },
    /// The read is done.
    Received {
        /// The bytes taken; none at the end of the stream.
        bytes: Vec<u8>,
        /// The descriptors that came with them.
        fds: Vec<i32>,
    },
    /// The read failed.
    ReceiveFailed {
        /// The failure.
        error: IoError,
    },
    /// The descriptor is duplicated.
    Duplicated {
        /// The duplicate.
        fd: i32,
    },
    /// The descriptor could not be duplicated.
    DuplicateFailed {
        /// The failure.
        error: IoError,
    },
    /// The application has had the event.
    Dispatched,
}

/// A [`Reply`] with its parts as sequences.
#[verifier::ext_equal]
pub enum ReplyView {
    Opened,
    AddressRefused { error: IoErrorView },
    OpenFailed { error: IoErrorView },
    Written,
    WriteFailed { error: IoErrorView },
    Elapsed { nanos: u128 },
    Polled { ready: i32 },
    PollFailed { error: IoErrorView },
    Received { bytes: Seq<u8>, fds: Seq<i32> },
    ReceiveFailed { error: IoErrorView },
    Duplicated { fd: i32 },
    DuplicateFailed { error: IoErrorView },
    Dispatched,
}

impl View for Reply {
    type V = ReplyView;

    open spec fn view(&self) -> ReplyView {
        match *self {
            Reply::Opened => ReplyView::Opened,
            Reply::AddressRefused { error } => ReplyView::AddressRefused { error: error@ },
            Reply::OpenFailed { error } => ReplyView::OpenFailed { error: error@ },
            Reply::Written => ReplyView::Written,
            Reply::WriteFailed { error } => ReplyView::WriteFailed { error: error@ },
            Reply::Elapsed { nanos } => ReplyView::Elapsed { nanos },
            Reply::Polled { ready } => ReplyView::Polled { ready },
            Reply::PollFailed { error } => ReplyView::PollFailed { error: error@ },
            Reply::Received { bytes, fds } => ReplyView::Received { bytes: bytes@, fds: fds@ },
            Reply::ReceiveFailed { error } => ReplyView::ReceiveFailed { error: error@ },
            Reply::Duplicated { fd } => ReplyView::Duplicated { fd },
            Reply::DuplicateFailed { error } => ReplyView::DuplicateFailed { error: error@ },
            Reply::Dispatched => ReplyView::Dispatched,
        }
    }
}

/// What a call into the session asks of the driver.
#[derive(Debug)]
pub struct Step {
    /// To be carried out first, in this order.
    pub effects: Vec<Effect>,
    /// To be done then, and reported on.
    pub action: Action,
}

/// The effects of a step, as a sequence of views.
pub open spec fn effect_views(effects: Seq<Effect>) -> Seq<EffectView> {
    effects.map_values(|effect: Effect| effect@)
}

/// A [`Step`] with its parts as sequences.
#[verifier::ext_equal]
pub struct StepView {
    pub effects: Seq<EffectView>,
    pub action: ActionView,
}

impl View for Step {
    type V = StepView;

    open spec fn view(&self) -> StepView {
        StepView { effects: effect_views(self.effects@), action: self.action@ }
    }
}

} // verus!
