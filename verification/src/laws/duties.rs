//! What each call into a session is for: what it is asked, what it is answered,
//! and what the caller then gets, for every state and every answer.
use vstd::prelude::*;

use crate::driver::{ActionView, EffectView, NoteView, OutcomeView, ReplyView, SgcEventView};
use crate::error::{IoErrorKind, IoErrorView, SgcErrorView};
use crate::frame::FrameView;
use crate::laws::conduct::{
    is_consistent, law_each_message_has_its_answer, lemma_closing_sends_nothing, sent_frames,
};
use crate::laws::words::{is_place, lemma_place, taken_out};
use crate::lease::{canonical, holds, is_lease_table, lemma_with, Lease};
use crate::protocol::{
    announced_len, decoded_message, request_frame, ClientRequest, ProtocolErrorView, Resource,
    ServerMessageView,
};
use crate::session::{close_all, ClientView, NewsView, Operation, PhaseView, Session, Turn};

verus! {

// --- What there is to say of a step ---

/// Closing these descriptors, one after the other.
pub open spec fn closing(fds: Seq<i32>) -> Seq<EffectView> {
    Seq::new(fds.len(), |i: int| EffectView::Close { fd: fds[i] })
}

/// Closing the descriptor at a place in the table, if it is one.
pub open spec fn closing_at(held: Seq<Lease>, at: int) -> Seq<EffectView> {
    if at < 0 {
        Seq::empty()
    } else {
        seq![EffectView::Close { fd: held[at].fd }]
    }
}

/// Closing what came with a frame that is half read.
pub open spec fn closing_half_read(phase: PhaseView) -> Seq<EffectView> {
    match phase {
        PhaseView::Receiving { frame, .. } => closing(frame.fds),
        _ => Seq::empty(),
    }
}

/// A turn, part by part.
pub open spec fn is_turn(
    turn: Turn,
    session: Session,
    phase: PhaseView,
    effects: Seq<EffectView>,
    action: ActionView,
) -> bool {
    &&& turn.client.session.held =~= session.held
    &&& turn.client.session.pending =~= session.pending
    &&& turn.client.session.fatal == session.fatal
    &&& turn.client.phase == phase
    &&& turn.step.effects =~= effects
    &&& turn.step.action == action
}

/// The operation is over.
pub open spec fn is_end(
    turn: Turn,
    session: Session,
    effects: Seq<EffectView>,
    outcome: OutcomeView,
) -> bool {
    is_turn(turn, session, PhaseView::Idle, effects, ActionView::Finish { outcome })
}

/// The application hears of an event: from a pump or the event loop at once, and
/// later if it is an acquire that met with it.
pub open spec fn is_told(
    turn: Turn,
    session: Session,
    operation: Operation,
    event: SgcEventView,
    effects: Seq<EffectView>,
) -> bool {
    match operation {
        Operation::Connect => true,
        Operation::Acquire { resource } => is_turn(
            turn,
            Session { pending: session.pending + seq![event], ..session },
            PhaseView::Timing { resource },
            effects,
            ActionView::Clock,
        ),
        Operation::Pump { .. } => is_end(turn, session, effects, OutcomeView::Event { event }),
        Operation::EventLoop => is_turn(
            turn,
            session,
            PhaseView::Dispatching,
            effects,
            ActionView::Dispatch { event },
        ),
    }
}

/// After the end of the connection: one resource is lost, or nothing is left but
/// the error.
pub open spec fn is_drained(
    turn: Turn,
    session: Session,
    error: SgcErrorView,
    operation: Operation,
    effects: Seq<EffectView>,
) -> bool {
    if session.held.len() == 0 {
        is_end(
            turn,
            Session { fatal: None, ..session },
            effects,
            OutcomeView::Failed { error },
        )
    } else {
        is_told(
            turn,
            Session { held: session.held.skip(1), fatal: Some(error), ..session },
            operation,
            SgcEventView::Revoked { resource: session.held[0].resource },
            effects + seq![EffectView::Close { fd: session.held[0].fd }],
        )
    }
}

/// The next event is looked for: first among those kept, then at the end of the
/// connection, and only then on the socket.
pub open spec fn is_search(
    turn: Turn,
    session: Session,
    operation: Operation,
    timeout_ms: int,
    effects: Seq<EffectView>,
) -> bool {
    if session.pending.len() > 0 {
        is_told(
            turn,
            Session { pending: session.pending.skip(1), ..session },
            operation,
            session.pending[0],
            effects,
        )
    } else if session.fatal is Some {
        is_drained(turn, session, session.fatal->0, operation, effects)
    } else {
        is_turn(
            turn,
            session,
            PhaseView::Polling { operation, timeout_ms: timeout_ms as i32 },
            effects,
            ActionView::Poll { timeout_ms: timeout_ms as i32 },
        )
    }
}

/// There is nothing to tell: a pump is over, the event loop looks for the next
/// event, and an acquire goes on waiting.
pub open spec fn is_passed_over(
    turn: Turn,
    session: Session,
    operation: Operation,
    effects: Seq<EffectView>,
) -> bool {
    match operation {
        Operation::Connect => true,
        Operation::Acquire { resource } => is_turn(
            turn,
            session,
            PhaseView::Timing { resource },
            effects,
            ActionView::Clock,
        ),
        Operation::Pump { .. } => is_end(turn, session, effects, OutcomeView::NoEvent),
        Operation::EventLoop => is_search(turn, session, operation, -1, effects),
    }
}

// --- Asking ---

/// An acquire writes the request for that resource, and nothing else changes.
pub proof fn law_an_acquire_asks_for_its_resource(client: ClientView, resource: Resource)
    ensures
        is_turn(
            client.acquire(resource),
            client.session,
            PhaseView::Writing { resource },
            closing_half_read(client.phase),
            ActionView::Write { frame: request_frame(ClientRequest::Acquire { resource }) },
        ),
{
}

/// A pump looks for an event, and waits for it on the socket as long as it is
/// told: without a limit for `None`, else so many whole milliseconds.
pub proof fn law_a_pump_looks_for_an_event(client: ClientView, timeout: Option<u128>)
    ensures
        is_search(
            client.pump(timeout),
            client.session,
            Operation::Pump { bounded: timeout is Some },
            match timeout {
                None => -1int,
                Some(nanos) => if nanos / 1_000_000 < 2_147_483_647 {
                    nanos as int / 1_000_000
                } else {
                    2_147_483_647int
                },
            },
            closing_half_read(client.phase),
        ),
{
    lemma_skip_one(client.session);
}

/// The event loop looks for events without a limit, and goes on when the
/// application has had one.
pub proof fn law_the_event_loop_looks_for_events(client: ClientView)
    ensures
        is_search(
            client.start_event_loop(),
            client.session,
            Operation::EventLoop,
            -1,
            closing_half_read(client.phase),
        ),
        client.phase is Dispatching ==> is_search(
            client.resume(ReplyView::Dispatched),
            client.session,
            Operation::EventLoop,
            -1,
            Seq::empty(),
        ),
{
    lemma_skip_one(client.session);
}

proof fn lemma_skip_one(session: Session)
    ensures
        session.pending.len() > 0 ==> session.pending.drop_first() == session.pending.skip(1),
        session.held.len() > 0 ==> session.held.drop_first() == session.held.skip(1),
{
}

// --- Opening ---

/// A socket that is open is read, four bytes of header first; a name that is
/// none is an I/O error, and a socket that nobody listens on a failed
/// connection.
pub proof fn law_a_session_is_opened(client: ClientView, error: IoErrorView)
    requires
        client.phase is Opening,
    ensures
        is_turn(
            client.resume(ReplyView::Opened),
            client.session,
            PhaseView::Receiving {
                operation: Operation::Connect,
                frame: FrameView { bytes: Seq::empty(), fds: Seq::empty() },
            },
            Seq::empty(),
            ActionView::Receive { len: 4 },
        ),
        is_end(
            client.resume(ReplyView::AddressRefused { error }),
            client.session,
            Seq::empty(),
            OutcomeView::Failed { error: SgcErrorView::Io(error) },
        ),
        is_end(
            client.resume(ReplyView::OpenFailed { error }),
            client.session,
            Seq::empty(),
            OutcomeView::Failed { error: SgcErrorView::ConnectFailed(error) },
        ),
{
}

// --- Waiting ---

/// A request that is written starts the clock, and one that cannot be written
/// fails the acquire.
pub proof fn law_a_request_is_written(client: ClientView, resource: Resource, error: IoErrorView)
    requires
        client.phase == (PhaseView::Writing { resource }),
    ensures
        is_turn(
            client.resume(ReplyView::Written),
            client.session,
            PhaseView::Timing { resource },
            Seq::empty(),
            ActionView::Clock,
        ),
        is_end(
            client.resume(ReplyView::WriteFailed { error }),
            client.session,
            Seq::empty(),
            OutcomeView::Failed { error: SgcErrorView::Io(error) },
        ),
{
}

/// An acquire waits for its answer until a quarter of a second after it asked,
/// to the millisecond: no longer, and less than a millisecond shorter. Then it
/// reports its request queued, and not before.
pub proof fn law_an_acquire_waits_its_quarter_of_a_second(
    client: ClientView,
    resource: Resource,
    nanos: u128,
)
    requires
        client.phase == (PhaseView::Timing { resource }),
    ensures
        ({
            let turn = client.resume(ReplyView::Elapsed { nanos });
            if nanos < 250_000_000 {
                &&& turn.step.action matches ActionView::Poll { timeout_ms } && nanos + timeout_ms
                    * 1_000_000 <= 250_000_000 < nanos + (timeout_ms + 1) * 1_000_000
                    && is_turn(
                    turn,
                    client.session,
                    PhaseView::Polling { operation: Operation::Acquire { resource }, timeout_ms },
                    Seq::empty(),
                    ActionView::Poll { timeout_ms },
                )
            } else {
                is_end(
                    turn,
                    client.session,
                    Seq::empty(),
                    OutcomeView::Failed { error: SgcErrorView::Queued { resource } },
                )
            }
        }),
{
}

/// Once the socket can be read, the four bytes of a header are read. If nothing
/// happened, an acquire reports its request queued, and there is nothing to
/// tell for the others.
pub proof fn law_a_wait_is_over(
    client: ClientView,
    operation: Operation,
    timeout_ms: i32,
    ready: i32,
)
    requires
        client.phase == (PhaseView::Polling { operation, timeout_ms }),
    ensures
        ({
            let turn = client.resume(ReplyView::Polled { ready });
            if ready > 0 {
                is_turn(
                    turn,
                    client.session,
                    PhaseView::Receiving {
                        operation,
                        frame: FrameView { bytes: Seq::empty(), fds: Seq::empty() },
                    },
                    Seq::empty(),
                    ActionView::Receive { len: 4 },
                )
            } else {
                match operation {
                    Operation::Acquire { resource } => is_end(
                        turn,
                        client.session,
                        Seq::empty(),
                        OutcomeView::Failed { error: SgcErrorView::Queued { resource } },
                    ),
                    _ => is_passed_over(turn, client.session, operation, Seq::empty()),
                }
            }
        }),
{
    lemma_skip_one(client.session);
}

/// A signal ends a wait that has a limit, as if the time were up; a wait without
/// a limit is started again as it was.
pub proof fn law_a_signal_ends_bounded_waits_only(
    client: ClientView,
    operation: Operation,
    timeout_ms: i32,
    error: IoErrorView,
)
    requires
        client.phase == (PhaseView::Polling { operation, timeout_ms }),
        error.kind == IoErrorKind::Interrupted,
    ensures
        ({
            let turn = client.resume(ReplyView::PollFailed { error });
            match operation {
                Operation::Acquire { resource } => is_end(
                    turn,
                    client.session,
                    Seq::empty(),
                    OutcomeView::Failed { error: SgcErrorView::Queued { resource } },
                ),
                Operation::Pump { bounded: true } => is_end(
                    turn,
                    client.session,
                    Seq::empty(),
                    OutcomeView::NoEvent,
                ),
                _ => is_turn(
                    turn,
                    client.session,
                    client.phase,
                    Seq::empty(),
                    ActionView::Poll { timeout_ms },
                ),
            }
        }),
{
}

// --- Reading ---

/// A read brings the last of a frame: these bytes complete what its header
/// announces, and what is announced holds a message.
pub open spec fn completes(
    client: ClientView,
    reply: ReplyView,
    operation: Operation,
    message: ServerMessageView,
    fds: Seq<i32>,
) -> bool {
    &&& client.phase matches PhaseView::Receiving { operation: under_way, frame }
    &&& reply matches ReplyView::Received { bytes, fds: last }
    &&& {
        let whole = frame.bytes + bytes;
        &&& under_way == operation
        &&& bytes.len() > 0
        &&& whole.len() >= 4
        &&& announced_len(whole) <= 1_048_576
        &&& whole.len() == 4 + announced_len(whole)
        &&& decoded_message(whole.skip(4)) == Ok::<ServerMessageView, Seq<char>>(message)
        &&& fds == frame.fds + last
    }
}

/// A read that brings some but not all of a frame is followed by a read of
/// exactly what is missing: of the header first, then of the payload. Nothing
/// else happens.
pub proof fn law_what_is_missing_is_read(
    client: ClientView,
    operation: Operation,
    frame: FrameView,
    bytes: Seq<u8>,
    fds: Seq<i32>,
)
    requires
        client.phase == (PhaseView::Receiving { operation, frame }),
        bytes.len() > 0,
        frame.bytes.len() + bytes.len() < 4 || (announced_len(frame.bytes + bytes) <= 1_048_576
            && frame.bytes.len() + bytes.len() < 4 + announced_len(frame.bytes + bytes)),
    ensures
        is_turn(
            client.resume(ReplyView::Received { bytes, fds }),
            client.session,
            PhaseView::Receiving {
                operation,
                frame: FrameView { bytes: frame.bytes + bytes, fds: frame.fds + fds },
            },
            Seq::empty(),
            ActionView::Receive {
                len: (if frame.bytes.len() + bytes.len() < 4 {
                    4 - (frame.bytes.len() + bytes.len())
                } else {
                    4 + announced_len(frame.bytes + bytes) - (frame.bytes.len() + bytes.len())
                }) as nat,
            },
        ),
{
}

/// An error that ends the connection, and the descriptors that came with the
/// frame that is lost with it.
#[verifier::ext_equal]
pub struct Ending {
    pub error: SgcErrorView,
    pub fds: Seq<i32>,
}

/// How a reply ends the connection, if it ends it: by a failed wait, a failed
/// read, the end of the stream, a header that announces more than a mebibyte, or
/// a payload that is no message.
pub open spec fn end_of_connection(client: ClientView, reply: ReplyView) -> Option<Ending> {
    match (client.phase, reply) {
        (PhaseView::Polling { .. }, ReplyView::PollFailed { error }) => if error.kind
            == IoErrorKind::Interrupted {
            None
        } else {
            Some(Ending { error: SgcErrorView::Io(error), fds: Seq::empty() })
        },
        (PhaseView::Receiving { frame, .. }, ReplyView::ReceiveFailed { error }) => Some(
            Ending { error: SgcErrorView::Io(error), fds: frame.fds },
        ),
        (PhaseView::Receiving { frame, .. }, ReplyView::Received { bytes, fds: last }) => {
            let whole = frame.bytes + bytes;
            let fds = frame.fds + last;
            if bytes.len() == 0 {
                let eof = IoErrorView {
                    kind: IoErrorKind::UnexpectedEof,
                    code: None,
                    message: "unexpected end of file"@,
                };
                Some(Ending { error: SgcErrorView::Io(eof), fds })
            } else if whole.len() >= 4 && announced_len(whole) > 1_048_576 {
                let error = SgcErrorView::Protocol(
                    ProtocolErrorView::FrameTooLarge(announced_len(whole)),
                );
                Some(Ending { error, fds })
            } else if whole.len() >= 4 && whole.len() >= 4 + announced_len(whole) {
                match decoded_message(whole.skip(4)) {
                    Ok(_) => None,
                    Err(text) => Some(
                        Ending {
                            error: SgcErrorView::Protocol(ProtocolErrorView::Decode(text)),
                            fds,
                        },
                    ),
                }
            } else {
                None
            }
        },
        _ => None,
    }
}

/// When the connection ends, what came with the lost frame is closed. An acquire
/// and the opening of a session then fail with the error and change nothing
/// else. A pump and the event loop lose what is held, one resource at a time,
/// and tell the error when nothing is held.
pub proof fn law_the_connection_ends(client: ClientView, reply: ReplyView, operation: Operation)
    requires
        end_of_connection(client, reply) is Some,
        client.phase matches PhaseView::Polling { operation: under_way, .. } ==> under_way
            == operation,
        client.phase matches PhaseView::Receiving { operation: under_way, .. } ==> under_way
            == operation,
    ensures
        ({
            let turn = client.resume(reply);
            let error = (end_of_connection(client, reply)->0).error;
            let effects = closing((end_of_connection(client, reply)->0).fds);
            match operation {
                Operation::Connect | Operation::Acquire { .. } => is_end(
                    turn,
                    client.session,
                    effects,
                    OutcomeView::Failed { error },
                ),
                _ => is_drained(turn, client.session, error, operation, effects),
            }
        }),
{
    lemma_skip_one(client.session);
    let fds = (end_of_connection(client, reply)->0).fds;
    assert(close_all(fds) == closing(fds));
    assert(closing(Seq::empty()) == Seq::<EffectView>::empty());
}

// --- Frames ---

/// The first frame of a session: the list opens it, with every resource in it
/// and no other, and any other message is an error that names it. Descriptors
/// are noted and closed.
pub open spec fn is_opening(
    turn: Turn,
    session: Session,
    message: ServerMessageView,
    fds: Seq<i32>,
    before: Seq<EffectView>,
) -> bool {
    let effects = if fds.len() == 0 {
        before
    } else {
        before + seq![
            EffectView::Note { note: NoteView::UnexpectedDescriptors { count: fds.len() } },
        ] + closing(fds)
    };
    match message {
        ServerMessageView::Advertise { available_resources } => is_end(
            turn,
            session,
            effects,
            OutcomeView::Connected { available_resources },
        ),
        _ => is_end(
            turn,
            session,
            effects,
            OutcomeView::Failed { error: SgcErrorView::UnexpectedMessage(message) },
        ),
    }
}

/// A frame in an open session. A revoke ends the lease at its place, closes what
/// was held there and what came with it, is answered with `Release` and told. A
/// grant with its one descriptor is answered with `Ack`, takes the place of what
/// was held, and is lent. A list is told. Everything else is noted and passed
/// over, but for the refusal that an acquire waits for. What is not kept is
/// closed.
pub open spec fn is_taken(
    turn: Turn,
    session: Session,
    operation: Operation,
    message: ServerMessageView,
    fds: Seq<i32>,
    at: int,
    before: Seq<EffectView>,
) -> bool {
    match message {
        ServerMessageView::Revoke { resource } => is_told(
            turn,
            Session { held: taken_out(session.held, at), ..session },
            operation,
            SgcEventView::Revoked { resource },
            before + closing_at(session.held, at) + closing(fds) + seq![
                EffectView::Send { frame: request_frame(ClientRequest::Release { resource }) },
            ],
        ),
        ServerMessageView::Grant { resource } => if fds.len() == 1 {
            is_turn(
                turn,
                Session {
                    held: taken_out(session.held, at) + seq![Lease { resource, fd: fds[0] }],
                    ..session
                },
                PhaseView::Duplicating { operation, resource },
                before + seq![EffectView::Send { frame: request_frame(ClientRequest::Ack) }]
                    + closing_at(session.held, at),
                ActionView::Duplicate { fd: fds[0] },
            )
        } else {
            is_passed_over(
                turn,
                session,
                operation,
                before + seq![
                    EffectView::Note { note: NoteView::GrantSkipped { count: fds.len() } },
                ] + closing(fds),
            )
        },
        ServerMessageView::Advertise { available_resources } => is_told(
            turn,
            session,
            operation,
            SgcEventView::Advertised { available_resources },
            before + closing(fds),
        ),
        ServerMessageView::Deny { reason } => if operation is Acquire {
            is_end(
                turn,
                session,
                before + closing(fds),
                OutcomeView::Failed { error: SgcErrorView::Denied { reason } },
            )
        } else {
            is_passed_over(
                turn,
                session,
                operation,
                before + seq![EffectView::Note { note: NoteView::MessageSkipped { message } }]
                    + closing(fds),
            )
        },
    }
}

/// The resource that a message is about, if it is about one.
pub open spec fn is_about(message: ServerMessageView, resource: Resource) -> bool {
    match message {
        ServerMessageView::Revoke { resource: revoked } => revoked == resource,
        ServerMessageView::Grant { resource: granted } => granted == resource,
        _ => true,
    }
}

/// A session is opened with exactly the list that the daemon sends.
pub proof fn law_the_list_opens_the_session(
    client: ClientView,
    reply: ReplyView,
    message: ServerMessageView,
    fds: Seq<i32>,
)
    requires
        completes(client, reply, Operation::Connect, message, fds),
    ensures
        is_opening(client.resume(reply), client.session, message, fds, Seq::empty()),
        message matches ServerMessageView::Advertise { available_resources } ==> client.resume(
            reply,
        ).step.action == (ActionView::Finish {
            outcome: OutcomeView::Connected { available_resources },
        }),
        !(message is Advertise) ==> client.resume(reply).step.action == (ActionView::Finish {
            outcome: OutcomeView::Failed { error: SgcErrorView::UnexpectedMessage(message) },
        }),
{
    assert(close_all(fds) == closing(fds));
    assert(fds.len() == 0 ==> client.resume(reply).step.effects == Seq::<EffectView>::empty());
}

/// Every frame of an open session is taken as it should be, whatever the session
/// is doing and whatever else it holds.
pub proof fn law_every_frame_is_taken(
    client: ClientView,
    reply: ReplyView,
    operation: Operation,
    message: ServerMessageView,
    fds: Seq<i32>,
    resource: Resource,
    at: int,
)
    requires
        is_lease_table(client.session.held),
        completes(client, reply, operation, message, fds),
        !(operation is Connect),
        is_about(message, resource),
        is_place(client.session.held, resource, at),
    ensures
        is_taken(
            client.resume(reply),
            client.session,
            operation,
            message,
            fds,
            at,
            Seq::empty(),
        ),
{
    lemma_taken(client.session, operation, message, fds, resource, at);
    let turn = client.resume(reply);
    assert(turn == client.session.on_message(operation, message, fds));
}

/// The same for a frame that is handed in; what came with a half-read one is
/// closed first.
pub proof fn law_frames_handed_in_are_taken(
    client: ClientView,
    operation: Operation,
    message: ServerMessageView,
    fds: Seq<i32>,
    resource: Resource,
    at: int,
)
    requires
        is_lease_table(client.session.held),
        is_about(message, resource),
        is_place(client.session.held, resource, at),
    ensures
        operation is Connect ==> is_opening(
            client.on_message(operation, message, fds),
            client.session,
            message,
            fds,
            closing_half_read(client.phase),
        ),
        !(operation is Connect) ==> is_taken(
            client.on_message(operation, message, fds),
            client.session,
            operation,
            message,
            fds,
            at,
            closing_half_read(client.phase),
        ),
{
    assert(close_all(fds) == closing(fds));
    assert(close_all(client.phase.fds()) == closing(client.phase.fds()));
    if !(operation is Connect) {
        lemma_taken(client.session, operation, message, fds, resource, at);
    }
}

proof fn lemma_taken(
    session: Session,
    operation: Operation,
    message: ServerMessageView,
    fds: Seq<i32>,
    resource: Resource,
    at: int,
)
    requires
        is_lease_table(session.held),
        !(operation is Connect),
        is_about(message, resource),
        is_place(session.held, resource, at),
    ensures
        is_taken(
            session.on_message(operation, message, fds),
            session,
            operation,
            message,
            fds,
            at,
            Seq::empty(),
        ),
{
    assert(close_all(fds) == closing(fds));
    lemma_place(session.held, resource, at);
    lemma_skip_one(session);
}

/// What taking a message in does by itself: to what is held, what it answers and
/// closes, and what it is worth telling.
pub proof fn law_every_message_is_taken_in(
    session: Session,
    message: ServerMessageView,
    fds: Seq<i32>,
    resource: Resource,
    at: int,
)
    requires
        is_lease_table(session.held),
        is_about(message, resource),
        is_place(session.held, resource, at),
    ensures
        ({
            let handled = session.handle_message(message, fds);
            &&& handled.session.pending == session.pending
            &&& handled.session.fatal == session.fatal
            &&& match message {
                ServerMessageView::Revoke { .. } => {
                    &&& handled.session.held == taken_out(session.held, at)
                    &&& handled.effects == closing_at(session.held, at) + closing(fds) + seq![
                        EffectView::Send {
                            frame: request_frame(ClientRequest::Release { resource }),
                        },
                    ]
                    &&& handled.news == (NewsView::Event {
                        event: SgcEventView::Revoked { resource },
                    })
                },
                ServerMessageView::Grant { .. } => if fds.len() == 1 {
                    &&& handled.session.held == taken_out(session.held, at) + seq![
                        Lease { resource, fd: fds[0] },
                    ]
                    &&& handled.effects == seq![
                        EffectView::Send { frame: request_frame(ClientRequest::Ack) },
                    ] + closing_at(session.held, at)
                    &&& handled.news == (NewsView::Lend { resource, fd: fds[0] })
                } else {
                    &&& handled.session.held == session.held
                    &&& handled.effects == seq![
                        EffectView::Note { note: NoteView::GrantSkipped { count: fds.len() } },
                    ] + closing(fds)
                    &&& handled.news == NewsView::Nothing
                },
                ServerMessageView::Advertise { available_resources } => {
                    &&& handled.session.held == session.held
                    &&& handled.effects == closing(fds)
                    &&& handled.news == (NewsView::Event {
                        event: SgcEventView::Advertised { available_resources },
                    })
                },
                ServerMessageView::Deny { .. } => {
                    &&& handled.session.held == session.held
                    &&& handled.effects == seq![
                        EffectView::Note { note: NoteView::MessageSkipped { message } },
                    ] + closing(fds)
                    &&& handled.news == NewsView::Nothing
                },
            }
        }),
{
    assert(close_all(fds) == closing(fds));
    lemma_place(session.held, resource, at);
}

/// A pump returns, and the event loop dispatches, the event that a frame means:
/// a revoke or a list at once, and a grant as soon as its descriptor is
/// duplicated. It makes no difference what else is held or how long the wait may
/// be.
pub proof fn law_the_application_hears_of_every_frame(
    client: ClientView,
    reply: ReplyView,
    operation: Operation,
    message: ServerMessageView,
    fds: Seq<i32>,
    duplicate: i32,
)
    requires
        completes(client, reply, operation, message, fds),
        operation is Pump || operation is EventLoop,
    ensures
        ({
            let turn = client.resume(reply);
            let lent = turn.client.resume(ReplyView::Duplicated { fd: duplicate });
            let hears = |action: ActionView, event: SgcEventView|
                match operation {
                    Operation::EventLoop => action == (ActionView::Dispatch { event }),
                    _ => action == (ActionView::Finish { outcome: OutcomeView::Event { event } }),
                };
            match message {
                ServerMessageView::Revoke { resource } => hears(
                    turn.step.action,
                    SgcEventView::Revoked { resource },
                ),
                ServerMessageView::Advertise { available_resources } => hears(
                    turn.step.action,
                    SgcEventView::Advertised { available_resources },
                ),
                ServerMessageView::Grant { resource } => fds.len() == 1 ==> {
                    &&& turn.step.action == (ActionView::Duplicate { fd: fds[0] })
                    &&& hears(
                        lent.step.action,
                        SgcEventView::Granted { resource, fd: duplicate },
                    )
                },
                ServerMessageView::Deny { .. } => true,
            }
        }),
{
}

/// The daemon gets its answer with the very step that takes its frame, before
/// anything is told: `Release` of that resource for a revoke, `Ack` for a grant
/// with its one descriptor, and nothing otherwise. It makes no difference what
/// the session is doing or what else it holds.
pub proof fn law_the_daemon_gets_its_answer(
    client: ClientView,
    reply: ReplyView,
    operation: Operation,
    message: ServerMessageView,
    fds: Seq<i32>,
)
    requires
        is_consistent(client),
        completes(client, reply, operation, message, fds),
        !(operation is Connect),
    ensures
        sent_frames(client.resume(reply).step.effects) == match message {
            ServerMessageView::Revoke { resource } => seq![
                request_frame(ClientRequest::Release { resource }),
            ],
            ServerMessageView::Grant { .. } => if fds.len() == 1 {
                seq![request_frame(ClientRequest::Ack)]
            } else {
                Seq::empty()
            },
            _ => Seq::empty(),
        },
{
    law_each_message_has_its_answer(client.session, message, fds);
    lemma_closing_sends_nothing(fds);
}

// --- Lending ---

/// A duplicate goes to the application with the grant. An acquire that waited
/// for this very grant closes it and is over, with success.
pub proof fn law_a_loan_is_told(
    client: ClientView,
    operation: Operation,
    resource: Resource,
    fd: i32,
)
    requires
        client.phase == (PhaseView::Duplicating { operation, resource }),
    ensures
        operation == (Operation::Acquire { resource }) ==> is_end(
            client.resume(ReplyView::Duplicated { fd }),
            client.session,
            seq![EffectView::Close { fd }],
            OutcomeView::Acquired,
        ),
        operation != (Operation::Acquire { resource }) ==> is_told(
            client.resume(ReplyView::Duplicated { fd }),
            client.session,
            operation,
            SgcEventView::Granted { resource, fd },
            Seq::empty(),
        ),
{
}

/// A failed duplication is noted and passed over. An acquire that waited for
/// this very grant is over all the same, with success.
pub proof fn law_a_failed_loan_is_passed_over(
    client: ClientView,
    operation: Operation,
    resource: Resource,
    error: IoErrorView,
)
    requires
        client.phase == (PhaseView::Duplicating { operation, resource }),
    ensures
        ({
            let turn = client.resume(ReplyView::DuplicateFailed { error });
            let effects = seq![EffectView::Note { note: NoteView::LendFailed { error } }];
            if operation == (Operation::Acquire { resource }) {
                is_end(turn, client.session, effects, OutcomeView::Acquired)
            } else {
                is_passed_over(turn, client.session, operation, effects)
            }
        }),
{
    lemma_skip_one(client.session);
}

// --- The driver ---

/// What the driver is asked for is what the session then waits for: a wait as
/// long as the session remembers, a read of exactly what is missing of the
/// frame, the duplicate of the descriptor that is held; and an operation is over
/// exactly when the session is idle.
pub open spec fn is_asked(client: ClientView, action: ActionView) -> bool {
    match client.phase {
        PhaseView::Idle => action is Finish,
        PhaseView::Opening => action is Open,
        PhaseView::Writing { resource } => action == (ActionView::Write {
            frame: request_frame(ClientRequest::Acquire { resource }),
        }),
        PhaseView::Timing { .. } => action == ActionView::Clock,
        PhaseView::Polling { timeout_ms, .. } => action == (ActionView::Poll { timeout_ms }),
        PhaseView::Receiving { frame, .. } => {
            let len = frame.bytes.len();
            action == (ActionView::Receive {
                len: (if len < 4 {
                    4 - len
                } else {
                    4 + announced_len(frame.bytes) - len
                }) as nat,
            })
        },
        PhaseView::Duplicating { resource, .. } => {
            &&& holds(client.session.held, resource)
            &&& action == (ActionView::Duplicate { fd: canonical(client.session.held, resource) })
        },
        PhaseView::Dispatching => action is Dispatch,
    }
}

/// Every call leaves the session waiting for what it has just asked for.
pub proof fn law_sessions_wait_for_what_they_asked(
    client: ClientView,
    reply: ReplyView,
    resource: Resource,
    timeout: Option<u128>,
)
    requires
        is_consistent(client),
    ensures
        client.expects(reply) ==> is_asked(
            client.resume(reply).client,
            client.resume(reply).step.action,
        ),
        is_asked(client.acquire(resource).client, client.acquire(resource).step.action),
        is_asked(client.pump(timeout).client, client.pump(timeout).step.action),
        is_asked(client.start_event_loop().client, client.start_event_loop().step.action),
{
    if let (
        PhaseView::Receiving { frame, .. },
        ReplyView::Received { bytes, fds },
    ) = (client.phase, reply) {
        if let Ok(ServerMessageView::Grant { resource }) = decoded_message(
            (frame.bytes + bytes).skip(4),
        ) {
            lemma_with(
                client.session.held,
                resource,
                (frame.fds + fds)[0],
                resource,
            );
        }
    }
}

/// A session takes every answer to what it has asked, and no other: of a read,
/// any number of bytes up to the number asked for.
pub proof fn law_sessions_take_the_answers(client: ClientView, action: ActionView, reply: ReplyView)
    requires
        is_consistent(client),
        is_asked(client, action),
    ensures
        client.expects(reply) <==> match action {
            ActionView::Open { .. } => reply is Opened || reply is AddressRefused
                || reply is OpenFailed,
            ActionView::Write { .. } => reply is Written || reply is WriteFailed,
            ActionView::Clock => reply is Elapsed,
            ActionView::Poll { .. } => reply is Polled || reply is PollFailed,
            ActionView::Receive { len } => reply is ReceiveFailed || (
            reply matches ReplyView::Received { bytes, .. } && bytes.len() <= len),
            ActionView::Duplicate { .. } => reply is Duplicated || reply is DuplicateFailed,
            ActionView::Dispatch { .. } => reply is Dispatched,
            ActionView::Finish { .. } => false,
        },
{
}

} // verus!
