//! How a session behaves: what it keeps, what it answers, in which order it
//! tells things, and how long it waits.
use vstd::prelude::*;

use crate::driver::{
    ActionView, EffectView, NoteView, OutcomeView, ReplyView, SgcEventView, StepView,
};
use crate::error::{IoErrorKind, IoErrorView, SgcErrorView};
use crate::frame::{is_partial_frame, ReceivedView};
use crate::laws::framing::law_reads_stay_inside_the_frame;
use crate::lease::{
    canonical, holds, is_lease_table, lemma_with, lemma_without, Lease,
};
use crate::protocol::{request_frame, ClientRequest, Resource, ServerMessageView};
use crate::session::{
    close_all, close_canonical, noted, send, ClientView, Operation, PhaseView, Session, Turn,
};
use crate::wait::{poll_timeout, ACQUIRE_REPLY_WAIT_NANOS, NANOS_PER_MILLI};

verus! {

// --- Which states there are ---

/// The operation that the driver is busy with.
pub open spec fn operation_of(phase: PhaseView) -> Option<Operation> {
    match phase {
        PhaseView::Idle => None,
        PhaseView::Opening => Some(Operation::Connect),
        PhaseView::Writing { resource } => Some(Operation::Acquire { resource }),
        PhaseView::Timing { resource } => Some(Operation::Acquire { resource }),
        PhaseView::Polling { operation, .. } => Some(operation),
        PhaseView::Receiving { operation, .. } => Some(operation),
        PhaseView::Duplicating { operation, .. } => Some(operation),
        PhaseView::Dispatching => Some(Operation::EventLoop),
    }
}

/// What holds of a session at every moment. No resource is held twice, and what
/// is being lent is held. A pump
/// that has got as far as the socket has nothing else left to tell. Opening a
/// session is reading its first frame, and nothing is held before.
pub open spec fn is_consistent(client: ClientView) -> bool {
    &&& is_lease_table(client.session.held)
    &&& client.phase matches PhaseView::Receiving { frame, .. } ==> is_partial_frame(frame.bytes)
    &&& client.phase matches PhaseView::Duplicating { resource, .. } ==> holds(
        client.session.held,
        resource,
    )
    &&& match operation_of(client.phase) {
        Some(Operation::Connect) => {
            &&& client.session == Session::fresh()
            &&& client.phase is Opening || client.phase is Receiving
        },
        Some(Operation::Pump { .. }) | Some(Operation::EventLoop) => {
            client.phase is Dispatching || (client.session.pending.len() == 0
                && client.session.fatal is None)
        },
        _ => true,
    }
}

/// The error that a reply ends the connection with, if it ends it: a failed
/// wait, but for a signal; a failed read; the end of the stream; a frame that is
/// too large or holds no message.
pub open spec fn fatal_error(client: ClientView, reply: ReplyView) -> Option<SgcErrorView> {
    match (client.phase, reply) {
        (PhaseView::Polling { .. }, ReplyView::PollFailed { error }) => if error.kind
            == IoErrorKind::Interrupted {
            None
        } else {
            Some(SgcErrorView::Io(error))
        },
        (PhaseView::Receiving { .. }, ReplyView::ReceiveFailed { error }) => {
            Some(SgcErrorView::Io(error))
        },
        (PhaseView::Receiving { frame, .. }, ReplyView::Received { bytes, fds }) => {
            match frame.received(bytes, fds) {
                ReceivedView::Failed { error, .. } => Some(error),
                _ => None,
            }
        },
        _ => None,
    }
}

/// The descriptors of the frame that was being read when the connection ended.
pub open spec fn unread_fds(client: ClientView, reply: ReplyView) -> Seq<i32> {
    match reply {
        ReplyView::Received { fds, .. } => client.phase.fds() + fds,
        _ => client.phase.fds(),
    }
}

/// Every operation starts in a consistent state, also where it takes the place
/// of another one.
pub proof fn law_operations_start_consistent(
    client: ClientView,
    resource: Resource,
    timeout: Option<u128>,
)
    requires
        is_consistent(client),
    ensures
        is_consistent(client.acquire(resource).client),
        is_consistent(client.pump(timeout).client),
        is_consistent(client.start_event_loop().client),
        is_consistent(ClientView { session: Session::fresh(), phase: PhaseView::Opening }),
{
}

/// Whatever the driver reports, a consistent session stays consistent. In
/// particular no resource is ever held twice.
pub proof fn law_sessions_stay_consistent(client: ClientView, reply: ReplyView)
    requires
        is_consistent(client),
        client.expects(reply),
    ensures
        is_consistent(client.resume(reply).client),
{
    let session = client.session;
    match (client.phase, reply) {
        (PhaseView::Receiving { operation, frame }, ReplyView::Received { bytes, fds }) => {
            law_reads_stay_inside_the_frame(frame, bytes, fds);
            if let ReceivedView::Complete { message, fds } = frame.received(bytes, fds) {
                match message {
                    ServerMessageView::Revoke { resource } => {
                        lemma_without(session.held, resource, resource);
                    },
                    ServerMessageView::Grant { resource } => {
                        lemma_with(session.held, resource, fds[0], resource);
                    },
                    _ => {},
                }
            }
        },
        _ => {},
    }
}

/// An operation goes on as what it started as, and ends as it should: opening
/// with the list, an acquire with the resource, a pump with an event or
/// without, the event loop only with an error, and each of them with an error.
pub proof fn law_operations_end_in_their_own_way(client: ClientView, reply: ReplyView)
    requires
        is_consistent(client),
        client.expects(reply),
    ensures
        ({
            let turn = client.resume(reply);
            match turn.step.action {
                ActionView::Finish { outcome } => {
                    &&& turn.client.phase is Idle
                    &&& match operation_of(client.phase) {
                        Some(Operation::Connect) => outcome is Connected || outcome is Failed,
                        Some(Operation::Acquire { .. }) => outcome is Acquired
                            || outcome is Failed,
                        Some(Operation::Pump { .. }) => outcome is Event || outcome is NoEvent
                            || outcome is Failed,
                        _ => outcome is Failed,
                    }
                },
                _ => operation_of(turn.client.phase) == operation_of(client.phase),
            }
        }),
{
}

// --- What is held ---

/// A grant with one descriptor puts the resource on that descriptor, also where
/// it was held before, and changes nothing else.
pub proof fn law_a_grant_holds_the_resource(
    session: Session,
    resource: Resource,
    fd: i32,
    other: Resource,
)
    requires
        is_lease_table(session.held),
        other != resource,
    ensures
        ({
            let after = session.handle_message(
                ServerMessageView::Grant { resource },
                seq![fd],
            ).session;
            &&& holds(after.held, resource)
            &&& canonical(after.held, resource) == fd
            &&& holds(after.held, other) <==> holds(session.held, other)
            &&& holds(session.held, other) ==> canonical(after.held, other) == canonical(
                session.held,
                other,
            )
            &&& after.pending == session.pending
            &&& after.fatal == session.fatal
        }),
{
    lemma_with(session.held, resource, fd, other);
}

/// A revoke ends the lease on the resource and changes nothing else; the
/// canonical descriptor, where there was one, is the first thing closed.
pub proof fn law_a_revoke_ends_the_lease(
    session: Session,
    resource: Resource,
    fds: Seq<i32>,
    other: Resource,
)
    requires
        is_lease_table(session.held),
        other != resource,
    ensures
        ({
            let handled = session.handle_message(ServerMessageView::Revoke { resource }, fds);
            let after = handled.session;
            &&& !holds(after.held, resource)
            &&& holds(after.held, other) <==> holds(session.held, other)
            &&& holds(session.held, other) ==> canonical(after.held, other) == canonical(
                session.held,
                other,
            )
            &&& holds(session.held, resource) ==> handled.effects[0] == (EffectView::Close {
                fd: canonical(session.held, resource),
            })
            &&& after.pending == session.pending
            &&& after.fatal == session.fatal
        }),
{
    lemma_without(session.held, resource, other);
}

/// Lists, refusals and grants without their one descriptor leave a session as
/// it is.
pub proof fn law_other_messages_change_nothing(
    session: Session,
    message: ServerMessageView,
    fds: Seq<i32>,
)
    requires
        !(message is Revoke),
        !(message is Grant && fds.len() == 1),
    ensures
        session.handle_message(message, fds).session == session,
{
}

/// What is lent is the duplicate, and the canonical descriptor stays where it
/// is: a pump returns it with the event, the event loop dispatches it, and an
/// acquire keeps the event, unless it waited for this very grant; then it closes
/// the duplicate and is over.
pub proof fn law_lending_keeps_the_canonical(
    client: ClientView,
    operation: Operation,
    resource: Resource,
    fd: i32,
)
    requires
        client.phase == (PhaseView::Duplicating { operation, resource }),
    ensures
        ({
            let turn = client.resume(ReplyView::Duplicated { fd });
            let event = SgcEventView::Granted { resource, fd };
            &&& turn.client.session.held == client.session.held
            &&& turn.client.session.fatal == client.session.fatal
            &&& match operation {
                Operation::Pump { .. } => turn == client.session.finish(
                    Seq::empty(),
                    OutcomeView::Event { event },
                ),
                Operation::EventLoop => turn == client.session.ask(
                    PhaseView::Dispatching,
                    Seq::empty(),
                    ActionView::Dispatch { event },
                ),
                Operation::Acquire { resource: wanted } => if wanted == resource {
                    turn == client.session.finish(
                        seq![EffectView::Close { fd }],
                        OutcomeView::Acquired,
                    )
                } else {
                    turn == Session {
                        pending: client.session.pending.push(event),
                        ..client.session
                    }.ask(PhaseView::Timing { resource: wanted }, Seq::empty(), ActionView::Clock)
                },
                Operation::Connect => true,
            }
        }),
{
}

/// A resource that cannot be lent stays held: the failure is noted, a pump has
/// no event, the event loop looks for the next one, and an acquire goes on or,
/// if it waited for this very grant, is over.
pub proof fn law_a_failed_loan_is_noted(
    client: ClientView,
    operation: Operation,
    resource: Resource,
    error: IoErrorView,
)
    requires
        is_consistent(client),
        client.phase == (PhaseView::Duplicating { operation, resource }),
    ensures
        ({
            let turn = client.resume(ReplyView::DuplicateFailed { error });
            &&& turn.client.session == client.session
            &&& turn.step.effects == seq![noted(NoteView::LendFailed { error })]
            &&& turn.step.action == match operation {
                Operation::EventLoop => ActionView::Poll { timeout_ms: poll_timeout(None) },
                Operation::Acquire { resource: wanted } => if wanted == resource {
                    ActionView::Finish { outcome: OutcomeView::Acquired }
                } else {
                    ActionView::Clock
                },
                _ => ActionView::Finish { outcome: OutcomeView::NoEvent },
            }
        }),
{
}

// --- What is held, over a whole session ---

/// A frame that has arrived, with its descriptors.
#[verifier::ext_equal]
pub struct Arrival {
    pub message: ServerMessageView,
    pub fds: Seq<i32>,
}

/// Whether a frame decides if `resource` is held: a revoke of it, or a grant of
/// it with the one descriptor.
pub open spec fn decides(arrival: Arrival, resource: Resource) -> bool {
    ||| arrival.message == (ServerMessageView::Revoke { resource })
    ||| arrival.message == (ServerMessageView::Grant { resource }) && arrival.fds.len() == 1
}

/// A call into a session.
#[verifier::ext_equal]
pub enum Call {
    Acquire { resource: Resource },
    Pump { timeout: Option<u128> },
    StartEventLoop,
    Resume { reply: ReplyView },
}

/// A session after a call.
pub open spec fn after_call(client: ClientView, call: Call) -> ClientView {
    match call {
        Call::Acquire { resource } => client.acquire(resource).client,
        Call::Pump { timeout } => client.pump(timeout).client,
        Call::StartEventLoop => client.start_event_loop().client,
        Call::Resume { reply } => client.resume(reply).client,
    }
}

/// The frame that a call completes, in a session that is open.
pub open spec fn arrival_of(client: ClientView, call: Call) -> Option<Arrival> {
    match (client.phase, call) {
        (
            PhaseView::Receiving { operation, frame },
            Call::Resume { reply: ReplyView::Received { bytes, fds } },
        ) => match frame.received(bytes, fds) {
            ReceivedView::Complete { message, fds } => if operation is Connect {
                None
            } else {
                Some(Arrival { message, fds })
            },
            _ => None,
        },
        _ => None,
    }
}

/// Whether a call may be made and the connection outlives it.
pub open spec fn survives(client: ClientView, call: Call) -> bool {
    call matches Call::Resume { reply } ==> client.expects(reply) && fatal_error(
        client,
        reply,
    ) is None
}

/// A session after some calls.
pub open spec fn after_calls(client: ClientView, calls: Seq<Call>) -> ClientView
    decreases calls.len(),
{
    if calls.len() == 0 {
        client
    } else {
        after_call(after_calls(client, calls.drop_last()), calls.last())
    }
}

/// The frames that arrived during some calls, in order.
pub open spec fn arrivals(client: ClientView, calls: Seq<Call>) -> Seq<Arrival>
    decreases calls.len(),
{
    if calls.len() == 0 {
        Seq::empty()
    } else {
        let before = arrivals(client, calls.drop_last());
        match arrival_of(after_calls(client, calls.drop_last()), calls.last()) {
            Some(arrival) => before.push(arrival),
            None => before,
        }
    }
}

/// Whether the connection outlives all of these calls.
pub open spec fn survives_all(client: ClientView, calls: Seq<Call>) -> bool
    decreases calls.len(),
{
    calls.len() == 0 || {
        &&& survives_all(client, calls.drop_last())
        &&& survives(after_calls(client, calls.drop_last()), calls.last())
    }
}

/// As long as the connection lives, nothing but a frame changes what is held,
/// and a frame changes it the same way whatever the session is doing.
pub proof fn law_only_frames_change_what_is_held(client: ClientView, call: Call)
    requires
        is_consistent(client),
        client.session.fatal is None,
        survives(client, call),
    ensures
        is_consistent(after_call(client, call)),
        after_call(client, call).session.fatal is None,
        after_call(client, call).session.held == match arrival_of(client, call) {
            Some(arrival) => client.session.handle_message(
                arrival.message,
                arrival.fds,
            ).session.held,
            None => client.session.held,
        },
{
    if let Call::Resume { reply } = call {
        law_sessions_stay_consistent(client, reply);
    }
}

/// A resource is held exactly when the last frame that decides about it was its
/// grant, and then on the descriptor that came with that grant; before the first
/// such frame it is held as it was. `last` is the place of that frame among the
/// arrivals, or -1 without one.
pub proof fn law_the_last_word_decides(
    client: ClientView,
    calls: Seq<Call>,
    resource: Resource,
    last: int,
)
    requires
        is_consistent(client),
        client.session.fatal is None,
        survives_all(client, calls),
        -1 <= last < arrivals(client, calls).len(),
        last >= 0 ==> decides(arrivals(client, calls)[last], resource),
        forall|i: int|
            last < i < arrivals(client, calls).len() ==> !decides(
                #[trigger] arrivals(client, calls)[i],
                resource,
            ),
    ensures
        ({
            let held = after_calls(client, calls).session.held;
            if last >= 0 {
                let arrival = arrivals(client, calls)[last];
                &&& holds(held, resource) <==> arrival.message is Grant
                &&& arrival.message is Grant ==> canonical(held, resource) == arrival.fds[0]
            } else {
                &&& holds(held, resource) <==> holds(client.session.held, resource)
                &&& holds(held, resource) ==> canonical(held, resource) == canonical(
                    client.session.held,
                    resource,
                )
            }
        }),
    decreases calls.len(),
{
    if calls.len() > 0 {
        let before = calls.drop_last();
        let session = after_calls(client, before).session;
        lemma_survivors(client, before);
        law_only_frames_change_what_is_held(after_calls(client, before), calls.last());
        if let Some(arrival) = arrival_of(after_calls(client, before), calls.last()) {
            let frames = arrivals(client, calls);
            assert(frames == arrivals(client, before).push(arrival));
            assert(frames.last() == arrival);
            if decides(arrival, resource) {
                assert(last == frames.len() - 1);
            } else {
                assert forall|i: int|
                    last < i < arrivals(client, before).len() implies !decides(
                    #[trigger] arrivals(client, before)[i],
                    resource,
                ) by {
                    assert(frames[i] == arrivals(client, before)[i]);
                }
                law_the_last_word_decides(client, before, resource, last);
            }
            match arrival.message {
                ServerMessageView::Revoke { resource: revoked } => {
                    lemma_without(session.held, revoked, resource);
                },
                ServerMessageView::Grant { resource: granted } => {
                    lemma_with(session.held, granted, arrival.fds[0], resource);
                },
                _ => {},
            }
        } else {
            law_the_last_word_decides(client, before, resource, last);
        }
    }
}

proof fn lemma_survivors(client: ClientView, calls: Seq<Call>)
    requires
        is_consistent(client),
        client.session.fatal is None,
        survives_all(client, calls),
    ensures
        is_consistent(after_calls(client, calls)),
        after_calls(client, calls).session.fatal is None,
    decreases calls.len(),
{
    if calls.len() > 0 {
        lemma_survivors(client, calls.drop_last());
        law_only_frames_change_what_is_held(after_calls(client, calls.drop_last()), calls.last());
    }
}

// --- What is answered ---

/// The frames that effects send, in order.
pub open spec fn sent_frames(effects: Seq<EffectView>) -> Seq<Seq<u8>>
    decreases effects.len(),
{
    if effects.len() == 0 {
        Seq::empty()
    } else {
        match effects.last() {
            EffectView::Send { frame } => sent_frames(effects.drop_last()).push(frame),
            _ => sent_frames(effects.drop_last()),
        }
    }
}

proof fn lemma_sent_add(a: Seq<EffectView>, b: Seq<EffectView>)
    ensures
        sent_frames(a + b) == sent_frames(a) + sent_frames(b),
    decreases b.len(),
{
    if b.len() == 0 {
        assert(a + b == a);
    } else {
        lemma_sent_add(a, b.drop_last());
        assert((a + b).drop_last() == a + b.drop_last());
        assert((a + b).last() == b.last());
    }
}

proof fn lemma_sent_one(effect: EffectView)
    ensures
        sent_frames(seq![effect]) == match effect {
            EffectView::Send { frame } => seq![frame],
            _ => Seq::empty(),
        },
{
    reveal_with_fuel(sent_frames, 2);
    assert(seq![effect].drop_last() == Seq::<EffectView>::empty());
}

pub(crate) proof fn lemma_closing_sends_nothing(fds: Seq<i32>)
    ensures
        sent_frames(close_all(fds)) == Seq::<Seq<u8>>::empty(),
    decreases fds.len(),
{
    if fds.len() > 0 {
        lemma_closing_sends_nothing(fds.drop_last());
        assert(close_all(fds).drop_last() == close_all(fds.drop_last()));
        assert(close_all(fds).last() == EffectView::Close { fd: fds.last() });
    }
}

proof fn lemma_noting_sends_nothing(note: NoteView, fds: Seq<i32>)
    ensures
        sent_frames(seq![noted(note)] + close_all(fds)) == Seq::<Seq<u8>>::empty(),
{
    lemma_closing_sends_nothing(fds);
    lemma_sent_one(noted(note));
    lemma_sent_add(seq![noted(note)], close_all(fds));
}

/// A revoke is answered with `Release` of that resource, held or not; a grant
/// with its one descriptor with `Ack`; nothing else is answered.
pub proof fn law_each_message_has_its_answer(
    session: Session,
    message: ServerMessageView,
    fds: Seq<i32>,
)
    ensures
        sent_frames(session.handle_message(message, fds).effects) == match message {
            ServerMessageView::Revoke { resource } => seq![
                request_frame(ClientRequest::Release { resource }),
            ],
            ServerMessageView::Grant { .. } => if fds.len() == 1 {
                seq![request_frame(ClientRequest::Ack)]
            } else {
                Seq::empty()
            },
            _ => Seq::empty(),
        },
{
    lemma_closing_sends_nothing(fds);
    lemma_noting_sends_nothing(NoteView::GrantSkipped { count: fds.len() }, fds);
    lemma_noting_sends_nothing(NoteView::MessageSkipped { message }, fds);
    match message {
        ServerMessageView::Revoke { resource } => {
            let release = send(ClientRequest::Release { resource });
            let closing = close_canonical(session.held, resource);
            lemma_closing_canonical_sends_nothing(session.held, resource);
            lemma_sent_add(closing, close_all(fds));
            lemma_sent_add(closing + close_all(fds), seq![release]);
            lemma_sent_one(release);
        },
        ServerMessageView::Grant { resource } => {
            let ack = send(ClientRequest::Ack);
            lemma_closing_canonical_sends_nothing(session.held, resource);
            lemma_sent_add(seq![ack], close_canonical(session.held, resource));
            lemma_sent_one(ack);
        },
        _ => {},
    }
}

proof fn lemma_closing_canonical_sends_nothing(held: Seq<Lease>, resource: Resource)
    ensures
        sent_frames(close_canonical(held, resource)) == Seq::<Seq<u8>>::empty(),
{
    if holds(held, resource) {
        lemma_sent_one(EffectView::Close { fd: canonical(held, resource) });
    }
}

// --- Acquiring ---

/// The grant of its resource with the one descriptor ends an acquire, and no
/// other frame does it with success: the resource is then held on that
/// descriptor, `Ack` is the first thing sent, and the acquire succeeds whatever
/// comes of lending it.
pub proof fn law_the_own_grant_ends_an_acquire(
    session: Session,
    resource: Resource,
    message: ServerMessageView,
    fds: Seq<i32>,
    reply: ReplyView,
)
    requires
        is_lease_table(session.held),
    ensures
        ({
            let turn = session.on_message(Operation::Acquire { resource }, message, fds);
            let after = turn.client.session;
            let granted = message == (ServerMessageView::Grant { resource }) && fds.len() == 1;
            let acquired = ActionView::Finish { outcome: OutcomeView::Acquired };
            &&& turn.step.action != acquired
            &&& granted ==> {
                &&& turn.step.action == (ActionView::Duplicate { fd: fds[0] })
                &&& turn.step.effects[0] == send(ClientRequest::Ack)
                &&& holds(after.held, resource)
                &&& canonical(after.held, resource) == fds[0]
                &&& after.pending == session.pending
            }
            &&& turn.client.expects(reply) ==> {
                let end = turn.client.resume(reply);
                &&& granted <==> end.step.action == acquired
                &&& granted ==> end.client == (ClientView {
                    session: after,
                    phase: PhaseView::Idle,
                })
            }
        }),
{
    if fds.len() == 1 {
        lemma_with(session.held, resource, fds[0], resource);
    }
}

/// Whenever an acquire succeeds, the resource is held.
pub proof fn law_success_means_held(client: ClientView, reply: ReplyView, resource: Resource)
    requires
        is_consistent(client),
        client.expects(reply),
        operation_of(client.phase) == Some(Operation::Acquire { resource }),
    ensures
        ({
            let turn = client.resume(reply);
            turn.step.action == (ActionView::Finish { outcome: OutcomeView::Acquired }) ==> holds(
                turn.client.session.held,
                resource,
            )
        }),
{
}

/// A refusal ends an acquire with the daemon's reason, and nothing is held that
/// was not held before.
pub proof fn law_a_refusal_leaves_the_session_as_it_was(
    session: Session,
    resource: Resource,
    reason: Seq<char>,
    fds: Seq<i32>,
)
    ensures
        session.on_message(
            Operation::Acquire { resource },
            ServerMessageView::Deny { reason },
            fds,
        ) == session.fail(close_all(fds), SgcErrorView::Denied { reason }),
{
}

/// Frames that answer something else do not end an acquire, and their events
/// are not lost: each waits at the end of the queue.
pub proof fn law_an_acquire_keeps_what_is_not_its_own(
    session: Session,
    resource: Resource,
    message: ServerMessageView,
    fds: Seq<i32>,
)
    requires
        !(message is Deny),
        !(message == (ServerMessageView::Grant { resource }) && fds.len() == 1),
    ensures
        ({
            let turn = session.on_message(Operation::Acquire { resource }, message, fds);
            let after = turn.client.session;
            &&& operation_of(turn.client.phase) == Some(Operation::Acquire { resource })
            &&& match message {
                ServerMessageView::Advertise { available_resources } => {
                    after.pending == session.pending.push(
                        SgcEventView::Advertised { available_resources },
                    )
                },
                ServerMessageView::Revoke { resource: revoked } => {
                    after.pending == session.pending.push(
                        SgcEventView::Revoked { resource: revoked },
                    )
                },
                ServerMessageView::Grant { resource: granted } => {
                    &&& after.pending == session.pending
                    &&& fds.len() == 1 ==> forall|fd: i32|
                        #![trigger turn.client.resume(ReplyView::Duplicated { fd })]
                        turn.client.resume(ReplyView::Duplicated { fd }).client.session.pending
                            == session.pending.push(SgcEventView::Granted { resource: granted, fd })
                },
                _ => true,
            }
        }),
{
}

/// A connection that fails during an acquire fails the acquire and touches
/// nothing else; what came with a frame that cannot be read is closed.
pub proof fn law_a_dead_connection_only_fails_an_acquire(
    client: ClientView,
    reply: ReplyView,
    resource: Resource,
)
    requires
        operation_of(client.phase) == Some(Operation::Acquire { resource }),
        fatal_error(client, reply) is Some,
    ensures
        client.resume(reply) == client.session.fail(
            close_all(unread_fds(client, reply)),
            fatal_error(client, reply)->0,
        ),
{
}

/// An acquire never waits past its quarter of a second: each time before it
/// waits, what has gone by and what it is ready to wait make no more than that,
/// and less than a millisecond less; once nothing is left it reports the request
/// queued.
pub proof fn law_an_acquire_waits_no_longer_than_it_may(
    client: ClientView,
    resource: Resource,
    nanos: u128,
)
    requires
        client.phase == (PhaseView::Timing { resource }),
    ensures
        match client.resume(ReplyView::Elapsed { nanos }).step.action {
            ActionView::Poll { timeout_ms } => {
                &&& nanos < ACQUIRE_REPLY_WAIT_NANOS
                &&& 0 <= timeout_ms
                &&& nanos + timeout_ms * NANOS_PER_MILLI <= ACQUIRE_REPLY_WAIT_NANOS
                &&& timeout_ms == (250_000_000 - nanos) / 1_000_000
                &&& nanos + (timeout_ms + 1) * 1_000_000 > 250_000_000
            },
            action => {
                &&& nanos >= ACQUIRE_REPLY_WAIT_NANOS
                &&& action == (ActionView::Finish {
                    outcome: OutcomeView::Failed { error: SgcErrorView::Queued { resource } },
                })
            },
        },
{
}

// --- Waiting ---

/// A signal ends a bounded wait: a pump has no event, and an acquire reports its
/// request queued. An unbounded wait goes on, in a pump and in the event loop.
pub proof fn law_a_signal_is_no_event(
    client: ClientView,
    operation: Operation,
    timeout_ms: i32,
    error: IoErrorView,
)
    requires
        client.phase == (PhaseView::Polling { operation, timeout_ms }),
        error.kind == IoErrorKind::Interrupted,
    ensures
        client.resume(ReplyView::PollFailed { error }) == match operation {
            Operation::Acquire { resource } => client.session.fail(
                Seq::empty(),
                SgcErrorView::Queued { resource },
            ),
            Operation::Pump { bounded: true } => client.session.finish(
                Seq::empty(),
                OutcomeView::NoEvent,
            ),
            _ => client.session.ask(
                client.phase,
                Seq::empty(),
                ActionView::Poll { timeout_ms },
            ),
        },
{
}

/// Only `None` waits without a limit, and less than a millisecond does not wait
/// at all. No wait is longer than it should be, and none is shorter by a
/// millisecond, but for those that are longer than poll(2) can wait.
pub proof fn law_timeouts(nanos: u128)
    ensures
        poll_timeout(None) < 0,
        poll_timeout(Some(nanos)) >= 0,
        nanos < NANOS_PER_MILLI ==> poll_timeout(Some(nanos)) == 0,
        poll_timeout(Some(nanos)) * NANOS_PER_MILLI <= nanos,
        nanos < (poll_timeout(Some(nanos)) + 1) * NANOS_PER_MILLI || poll_timeout(Some(nanos))
            == i32::MAX,
{
}

// --- Telling ---

/// The session after some pumps that each found something without the socket.
pub open spec fn after_pumps(client: ClientView, timeouts: Seq<Option<u128>>) -> ClientView
    decreases timeouts.len(),
{
    if timeouts.len() == 0 {
        client
    } else {
        after_pumps(client, timeouts.drop_last()).pump(timeouts.last()).client
    }
}

/// What the pump tells next, when it needs no socket for it: first the events
/// that an acquire kept, in the order in which they arrived, while what is held
/// stays as it is; then, if the connection is dead, each resource still held,
/// which is held no more and its descriptor closed; then the error, and with it
/// everything has been told.
pub proof fn law_the_pump_tells_everything_in_order(
    session: Session,
    timeouts: Seq<Option<u128>>,
    timeout: Option<u128>,
)
    requires
        timeouts.len() < session.pending.len() || (session.fatal is Some && timeouts.len()
            <= session.pending.len() + session.held.len()),
    ensures
        ({
            let n = timeouts.len() as int;
            let kept = session.pending.len() as int;
            let client = ClientView { session, phase: PhaseView::Idle };
            let turn = after_pumps(client, timeouts).pump(timeout);
            if n < kept {
                turn == Session { pending: session.pending.skip(n + 1), ..session }.finish(
                    Seq::empty(),
                    OutcomeView::Event { event: session.pending[n] },
                )
            } else if n < kept + session.held.len() {
                let lease = session.held[n - kept];
                turn == Session {
                    pending: Seq::empty(),
                    held: session.held.skip(n - kept + 1),
                    ..session
                }.finish(
                    seq![EffectView::Close { fd: lease.fd }],
                    OutcomeView::Event {
                        event: SgcEventView::Revoked { resource: lease.resource },
                    },
                )
            } else {
                turn == Session::fresh().fail(Seq::empty(), session.fatal->0)
            }
        }),
{
    let n = timeouts.len() as int;
    let kept = session.pending.len() as int;
    lemma_after_pumps(session, timeouts);
    if n < kept {
        assert(session.pending.skip(n).drop_first() == session.pending.skip(n + 1));
        assert(session.held.skip(0) == session.held);
    } else if n < kept + session.held.len() {
        assert(session.held.skip(n - kept).drop_first() == session.held.skip(n - kept + 1));
    }
}

proof fn lemma_after_pumps(session: Session, timeouts: Seq<Option<u128>>)
    requires
        timeouts.len() < session.pending.len() || (session.fatal is Some && timeouts.len()
            <= session.pending.len() + session.held.len()),
    ensures
        ({
            let n = timeouts.len() as int;
            let kept = session.pending.len() as int;
            after_pumps(ClientView { session, phase: PhaseView::Idle }, timeouts) == ClientView {
                session: Session {
                    pending: session.pending.skip(if n < kept { n } else { kept }),
                    held: session.held.skip(if n < kept { 0 } else { n - kept }),
                    ..session
                },
                phase: PhaseView::Idle,
            }
        }),
    decreases timeouts.len(),
{
    if timeouts.len() == 0 {
        assert(session.pending.skip(0) == session.pending);
        assert(session.held.skip(0) == session.held);
    } else {
        lemma_after_pumps(session, timeouts.drop_last());
        let n = timeouts.len() - 1;
        let kept = session.pending.len() as int;
        if n < kept {
            assert(session.pending.skip(n).drop_first() == session.pending.skip(n + 1));
        } else {
            assert(session.held.skip(n - kept).drop_first() == session.held.skip(n - kept + 1));
        }
    }
}

/// A pump or an event loop that finds the connection dead closes what came with
/// the frame that cannot be read and starts to tell it at once: it does what it
/// does after the end of the connection.
pub proof fn law_the_end_starts_the_telling(client: ClientView, reply: ReplyView)
    requires
        is_consistent(client),
        fatal_error(client, reply) is Some,
    ensures
        ({
            let turn = client.resume(reply);
            let ended = ClientView {
                session: Session { fatal: fatal_error(client, reply), ..client.session },
                phase: PhaseView::Idle,
            };
            let telling = match operation_of(client.phase) {
                Some(Operation::EventLoop) => ended.start_event_loop(),
                _ => ended.pump(None),
            };
            operation_of(client.phase) matches Some(operation) && (operation is Pump
                || operation is EventLoop) ==> {
                &&& turn.client == telling.client
                &&& turn.step.action == telling.step.action
                &&& turn.step.effects == close_all(unread_fds(client, reply))
                    + telling.step.effects
            }
        }),
{
}

/// An error of a pump or of the event loop is the last thing there is to tell:
/// whatever was held has been told as revoked before, and nothing is held.
pub proof fn law_an_error_of_the_pump_comes_last(client: ClientView, reply: ReplyView)
    requires
        is_consistent(client),
        client.expects(reply),
        operation_of(client.phase) matches Some(operation) && (operation is Pump
            || operation is EventLoop),
    ensures
        client.resume(reply).step.action matches ActionView::Finish {
            outcome: OutcomeView::Failed { .. },
        } ==> client.resume(reply).client == (ClientView {
            session: Session::fresh(),
            phase: PhaseView::Idle,
        }),
{
}

/// The same for a pump or an event loop that fails as soon as it is asked for.
pub proof fn law_an_error_at_once_comes_last(client: ClientView, timeout: Option<u128>)
    ensures
        client.pump(timeout).step.action matches ActionView::Finish {
            outcome: OutcomeView::Failed { .. },
        } ==> client.pump(timeout).client == (ClientView {
            session: Session::fresh(),
            phase: PhaseView::Idle,
        }),
        client.start_event_loop().step.action matches ActionView::Finish {
            outcome: OutcomeView::Failed { .. },
        } ==> client.start_event_loop().client == (ClientView {
            session: Session::fresh(),
            phase: PhaseView::Idle,
        }),
{
}

// --- The event loop ---

/// A phase of a pump without a limit, as a phase of the event loop.
pub open spec fn looped_phase(phase: PhaseView) -> PhaseView {
    let operation = Operation::EventLoop;
    match phase {
        PhaseView::Polling { timeout_ms, .. } => PhaseView::Polling { operation, timeout_ms },
        PhaseView::Receiving { frame, .. } => PhaseView::Receiving { operation, frame },
        PhaseView::Duplicating { resource, .. } => PhaseView::Duplicating { operation, resource },
        other => other,
    }
}

/// A turn of a pump without a limit, as a turn of the event loop: an event is
/// dispatched, no event means the next pump, and an error ends the loop.
pub open spec fn looped(turn: Turn) -> Turn {
    let effects = turn.step.effects;
    match turn.step.action {
        ActionView::Finish { outcome: OutcomeView::Event { event } } => {
            turn.client.session.ask(PhaseView::Dispatching, effects, ActionView::Dispatch { event })
        },
        ActionView::Finish { outcome: OutcomeView::NoEvent } => {
            let next = turn.client.start_event_loop();
            Turn {
                client: next.client,
                step: StepView { effects: effects + next.step.effects, action: next.step.action },
            }
        },
        _ => Turn {
            client: ClientView { phase: looped_phase(turn.client.phase), ..turn.client },
            step: turn.step,
        },
    }
}

/// The event loop is the pump without a limit, over and over.
pub proof fn law_the_event_loop_is_the_pump(client: ClientView, reply: ReplyView)
    requires
        client.phase is Idle || operation_of(client.phase) == Some(
            Operation::Pump { bounded: false },
        ),
    ensures
        client.phase is Idle ==> client.start_event_loop() == looped(client.pump(None)),
        !(client.phase is Idle) && client.expects(reply) ==> (ClientView {
            phase: looped_phase(client.phase),
            ..client
        }).resume(reply) == looped(client.resume(reply)),
        (ClientView { phase: PhaseView::Dispatching, ..client }).resume(
            ReplyView::Dispatched,
        ) == (ClientView { phase: PhaseView::Idle, ..client }).start_event_loop(),
{
}

} // verus!
