//! Where descriptors go: each one is kept, closed or given away, once.
use vstd::multiset::Multiset;
use vstd::prelude::*;
use vstd::seq_lib::{group_to_multiset_ensures, lemma_multiset_commutative};

use crate::driver::{ActionView, EffectView, NoteView, OutcomeView, ReplyView, SgcEventView};
use crate::error::SgcErrorView;
use crate::frame::ReceivedView;
use crate::lease::{
    descriptors, holds, is_lease_table, lemma_without_absent, lemma_without_at, without, Lease,
};
use crate::protocol::{ClientRequest, Resource, ServerMessageView};
use crate::session::{
    close_all, close_canonical, close_unexpected, granted_fds, noted, send, ClientView, NewsView,
    Operation, PhaseView, Session, Turn,
};
use crate::wait::poll_timeout;

verus! {

/// The canonical descriptors.
pub open spec fn held_fds(held: Seq<Lease>) -> Multiset<i32> {
    descriptors(held).to_multiset()
}

/// The descriptor that an event carries, if it carries one.
pub open spec fn event_fds(event: SgcEventView) -> Multiset<i32> {
    match event {
        SgcEventView::Granted { fd, .. } => Multiset::singleton(fd),
        _ => Multiset::empty(),
    }
}

/// The descriptors that events carry.
pub open spec fn pending_fds(events: Seq<SgcEventView>) -> Multiset<i32>
    decreases events.len(),
{
    if events.len() == 0 {
        Multiset::empty()
    } else {
        pending_fds(events.drop_last()).add(event_fds(events.last()))
    }
}

/// The descriptors that came with the part of a frame that has been read.
pub open spec fn phase_fds(phase: PhaseView) -> Multiset<i32> {
    match phase {
        PhaseView::Receiving { frame, .. } => frame.fds.to_multiset(),
        _ => Multiset::empty(),
    }
}

/// The descriptors in the hands of the session.
pub open spec fn owned_fds(client: ClientView) -> Multiset<i32> {
    held_fds(client.session.held).add(pending_fds(client.session.pending)).add(
        phase_fds(client.phase),
    )
}

/// The descriptors that a reply puts into the hands of the session.
pub open spec fn brought_fds(reply: ReplyView) -> Multiset<i32> {
    match reply {
        ReplyView::Received { fds, .. } => fds.to_multiset(),
        ReplyView::Duplicated { fd } => Multiset::singleton(fd),
        _ => Multiset::empty(),
    }
}

/// The descriptor that an effect closes, if it closes one.
pub open spec fn effect_fds(effect: EffectView) -> Multiset<i32> {
    match effect {
        EffectView::Close { fd } => Multiset::singleton(fd),
        _ => Multiset::empty(),
    }
}

/// The descriptors that effects close.
pub open spec fn closed_fds(effects: Seq<EffectView>) -> Multiset<i32>
    decreases effects.len(),
{
    if effects.len() == 0 {
        Multiset::empty()
    } else {
        closed_fds(effects.drop_last()).add(effect_fds(effects.last()))
    }
}

/// The descriptors that an action gives to the application.
pub open spec fn given_fds(action: ActionView) -> Multiset<i32> {
    match action {
        ActionView::Dispatch { event } => event_fds(event),
        ActionView::Finish { outcome: OutcomeView::Event { event } } => event_fds(event),
        _ => Multiset::empty(),
    }
}

proof fn lemma_closed_add(a: Seq<EffectView>, b: Seq<EffectView>)
    ensures
        closed_fds(a + b) == closed_fds(a).add(closed_fds(b)),
    decreases b.len(),
{
    if b.len() == 0 {
        assert(a + b == a);
    } else {
        lemma_closed_add(a, b.drop_last());
        assert((a + b).drop_last() == a + b.drop_last());
        assert((a + b).last() == b.last());
    }
}

proof fn lemma_closed_push(effects: Seq<EffectView>, effect: EffectView)
    ensures
        closed_fds(effects.push(effect)) == closed_fds(effects).add(effect_fds(effect)),
{
    assert(effects.push(effect).drop_last() == effects);
}

proof fn lemma_closed_one(effect: EffectView)
    ensures
        closed_fds(seq![effect]) == effect_fds(effect),
{
    lemma_closed_push(Seq::empty(), effect);
    assert(Seq::<EffectView>::empty().push(effect) == seq![effect]);
}

proof fn lemma_close_all(fds: Seq<i32>)
    ensures
        closed_fds(close_all(fds)) == fds.to_multiset(),
    decreases fds.len(),
{
    broadcast use group_to_multiset_ensures;

    if fds.len() == 0 {
        assert(fds.to_multiset() == Multiset::<i32>::empty());
    } else {
        lemma_close_all(fds.drop_last());
        assert(close_all(fds).drop_last() == close_all(fds.drop_last()));
        assert(fds == fds.drop_last().push(fds.last()));
        assert(close_all(fds).last() == EffectView::Close { fd: fds.last() });
        assert(fds.to_multiset() == fds.drop_last().to_multiset().insert(fds.last()));
    }
}

proof fn lemma_note_and_close(note: NoteView, fds: Seq<i32>)
    ensures
        closed_fds(seq![noted(note)] + close_all(fds)) == fds.to_multiset(),
{
    lemma_closed_one(noted(note));
    lemma_close_all(fds);
    lemma_closed_add(seq![noted(note)], close_all(fds));
}

proof fn lemma_close_unexpected(fds: Seq<i32>)
    ensures
        closed_fds(close_unexpected(fds)) == fds.to_multiset(),
{
    broadcast use group_to_multiset_ensures;

    lemma_note_and_close(NoteView::UnexpectedDescriptors { count: fds.len() }, fds);
    if fds.len() == 0 {
        assert(fds.to_multiset() == Multiset::<i32>::empty());
    }
}

proof fn lemma_pending_push(events: Seq<SgcEventView>, event: SgcEventView)
    ensures
        pending_fds(events.push(event)) == pending_fds(events).add(event_fds(event)),
{
    assert(events.push(event).drop_last() == events);
}

proof fn lemma_pending_first(events: Seq<SgcEventView>)
    requires
        events.len() > 0,
    ensures
        pending_fds(events) == event_fds(events[0]).add(pending_fds(events.drop_first())),
    decreases events.len(),
{
    if events.len() == 1 {
        assert(events.drop_last() == Seq::<SgcEventView>::empty());
        assert(events.drop_first() == Seq::<SgcEventView>::empty());
    } else {
        lemma_pending_first(events.drop_last());
        assert(events.drop_first().drop_last() == events.drop_last().drop_first());
        assert(events.drop_first().last() == events.last());
    }
}

proof fn lemma_held_without(held: Seq<Lease>, resource: Resource)
    requires
        is_lease_table(held),
    ensures
        held_fds(held) == held_fds(without(held, resource)).add(
            closed_fds(close_canonical(held, resource)),
        ),
{
    broadcast use group_to_multiset_ensures;

    let fds = descriptors(held);
    if holds(held, resource) {
        let i = choose|i: int| 0 <= i < held.len() && (#[trigger] held[i]).resource == resource;
        lemma_without_at(held, i);
        lemma_closed_one(EffectView::Close { fd: held[i].fd });
        assert(descriptors(without(held, resource)) == fds.remove(i));
        assert(fds[i] == held[i].fd);
        assert(fds.contains(fds[i]));
        assert(fds.to_multiset() == fds.remove(i).to_multiset().insert(fds[i]));
    } else {
        lemma_without_absent(held, resource);
    }
}

proof fn lemma_held_first(held: Seq<Lease>)
    requires
        held.len() > 0,
    ensures
        held_fds(held) == held_fds(held.drop_first()).add(Multiset::singleton(held[0].fd)),
{
    broadcast use group_to_multiset_ensures;

    let fds = descriptors(held);
    assert(descriptors(held.drop_first()) == fds.remove(0));
    assert(fds.contains(fds[0]));
    assert(fds.to_multiset() == fds.remove(0).to_multiset().insert(fds[0]));
}

/// A message that carries descriptors is the only way into the table, and what
/// leaves the table is closed: what the session held and what came with the
/// message is what it holds afterwards and what is closed.
pub proof fn law_messages_account_for_descriptors(
    session: Session,
    message: ServerMessageView,
    fds: Seq<i32>,
)
    requires
        is_lease_table(session.held),
    ensures
        held_fds(session.held).add(fds.to_multiset()) == held_fds(
            session.handle_message(message, fds).session.held,
        ).add(closed_fds(session.handle_message(message, fds).effects)),
{
    broadcast use group_to_multiset_ensures;

    let handled = session.handle_message(message, fds);
    lemma_close_all(fds);
    match message {
        ServerMessageView::Revoke { resource } => {
            let release = send(ClientRequest::Release { resource });
            lemma_held_without(session.held, resource);
            lemma_closed_add(close_canonical(session.held, resource), close_all(fds));
            lemma_closed_add(
                close_canonical(session.held, resource) + close_all(fds),
                seq![release],
            );
            lemma_closed_one(release);
        },
        ServerMessageView::Grant { resource } => {
            if fds.len() == 1 {
                let ack = send(ClientRequest::Ack);
                let rest = without(session.held, resource);
                lemma_held_without(session.held, resource);
                lemma_closed_add(seq![ack], close_canonical(session.held, resource));
                lemma_closed_one(ack);
                assert(descriptors(handled.session.held) == descriptors(rest).push(fds[0]));
                assert(fds == Seq::<i32>::empty().push(fds[0]));
                assert(fds.to_multiset() == Multiset::<i32>::empty().insert(fds[0]));
            } else {
                lemma_note_and_close(NoteView::GrantSkipped { count: fds.len() }, fds);
            }
        },
        ServerMessageView::Deny { .. } => {
            lemma_note_and_close(NoteView::MessageSkipped { message }, fds);
        },
        ServerMessageView::Advertise { .. } => {},
    }
}

/// The descriptors in a session between two operations.
pub open spec fn session_fds(session: Session) -> Multiset<i32> {
    held_fds(session.held).add(pending_fds(session.pending))
}

/// Where the descriptors are after a turn: with the session, closed, or given
/// away.
pub open spec fn placed_fds(turn: Turn) -> Multiset<i32> {
    owned_fds(turn.client).add(closed_fds(turn.step.effects)).add(given_fds(turn.step.action))
}

proof fn lemma_deliver(
    session: Session,
    operation: Operation,
    event: SgcEventView,
    effects: Seq<EffectView>,
)
    ensures
        placed_fds(session.deliver(operation, event, effects)) == session_fds(session).add(
            event_fds(event),
        ).add(closed_fds(effects)),
{
    lemma_pending_push(session.pending, event);
}

proof fn lemma_drain(session: Session, operation: Operation, effects: Seq<EffectView>)
    ensures
        placed_fds(session.drain_disconnect(operation, effects)) == session_fds(session).add(
            closed_fds(effects),
        ),
{
    if session.held.len() > 0 {
        let close = EffectView::Close { fd: session.held[0].fd };
        let event = SgcEventView::Revoked { resource: session.held[0].resource };
        lemma_held_first(session.held);
        lemma_closed_push(effects, close);
        lemma_deliver(
            Session { held: session.held.drop_first(), ..session },
            operation,
            event,
            effects.push(close),
        );
    }
}

proof fn lemma_pump(
    session: Session,
    operation: Operation,
    timeout_ms: i32,
    effects: Seq<EffectView>,
)
    ensures
        placed_fds(session.pump(operation, timeout_ms, effects)) == session_fds(session).add(
            closed_fds(effects),
        ),
{
    if session.pending.len() > 0 {
        lemma_pending_first(session.pending);
        lemma_deliver(
            Session { pending: session.pending.drop_first(), ..session },
            operation,
            session.pending[0],
            effects,
        );
    } else if session.fatal is Some {
        lemma_drain(session, operation, effects);
    }
}

proof fn lemma_pass(session: Session, operation: Operation, effects: Seq<EffectView>)
    ensures
        placed_fds(session.pass(operation, effects)) == session_fds(session).add(
            closed_fds(effects),
        ),
{
    lemma_pump(session, operation, poll_timeout(None), effects);
}

proof fn lemma_read_failed(
    session: Session,
    operation: Operation,
    error: SgcErrorView,
    effects: Seq<EffectView>,
)
    ensures
        placed_fds(session.read_failed(operation, error, effects)) == session_fds(session).add(
            closed_fds(effects),
        ),
{
    lemma_drain(Session { fatal: Some(error), ..session }, operation, effects);
}

proof fn lemma_relay(
    session: Session,
    operation: Operation,
    message: ServerMessageView,
    fds: Seq<i32>,
)
    requires
        is_lease_table(session.held),
    ensures
        placed_fds(session.relay_message(operation, message, fds)) == session_fds(session).add(
            fds.to_multiset(),
        ),
{
    let handled = session.handle_message(message, fds);
    law_messages_account_for_descriptors(session, message, fds);
    assert(handled.session.pending == session.pending);
    let before = held_fds(session.held).add(fds.to_multiset());
    let after = held_fds(handled.session.held).add(closed_fds(handled.effects));
    assert(session_fds(session).add(fds.to_multiset()) == before.add(
        pending_fds(session.pending),
    ));
    assert(session_fds(handled.session).add(closed_fds(handled.effects)) == after.add(
        pending_fds(session.pending),
    ));
    match handled.news {
        NewsView::Event { event } => {
            lemma_deliver(handled.session, operation, event, handled.effects);
        },
        NewsView::Lend { .. } => {},
        NewsView::Nothing => {
            lemma_pass(handled.session, operation, handled.effects);
        },
    }
}

proof fn lemma_on_message(
    session: Session,
    operation: Operation,
    message: ServerMessageView,
    fds: Seq<i32>,
)
    requires
        is_lease_table(session.held),
    ensures
        placed_fds(session.on_message(operation, message, fds)) == session_fds(session).add(
            fds.to_multiset(),
        ),
{
    lemma_relay(session, operation, message, fds);
    lemma_close_all(fds);
    lemma_close_unexpected(fds);
    law_messages_account_for_descriptors(session, message, fds);
}

/// Every descriptor that comes into the hands of a session is in exactly one
/// place after each step: still with the session, closed, or given to the
/// application. Nothing is lost or closed twice, and nothing that was given away
/// is closed.
pub proof fn law_every_descriptor_is_accounted_for(client: ClientView, reply: ReplyView)
    requires
        is_lease_table(client.session.held),
        client.expects(reply),
    ensures
        owned_fds(client).add(brought_fds(reply)) == placed_fds(client.resume(reply)),
{
    broadcast use group_to_multiset_ensures;

    let session = client.session;
    match (client.phase, reply) {
        (PhaseView::Receiving { operation, frame }, ReplyView::Received { bytes, fds }) => {
            let all = frame.fds + fds;
            lemma_multiset_commutative(frame.fds, fds);
            assert(all.to_multiset() == frame.fds.to_multiset().add(fds.to_multiset()));
            match frame.received(bytes, fds) {
                ReceivedView::Partial { .. } => {},
                ReceivedView::Complete { message, fds: together } => {
                    assert(together == all);
                    lemma_on_message(session, operation, message, together);
                },
                ReceivedView::Failed { error, fds: together } => {
                    assert(together == all);
                    lemma_close_all(together);
                    lemma_read_failed(session, operation, error, close_all(together));
                },
            }
        },
        (PhaseView::Receiving { operation, frame }, ReplyView::ReceiveFailed { error }) => {
            lemma_close_all(frame.fds);
            lemma_read_failed(session, operation, SgcErrorView::Io(error), close_all(frame.fds));
        },
        (PhaseView::Polling { operation, .. }, ReplyView::PollFailed { error }) => {
            lemma_read_failed(session, operation, SgcErrorView::Io(error), Seq::empty());
            lemma_pass(session, operation, Seq::empty());
        },
        (PhaseView::Polling { operation, .. }, _) => {
            lemma_pass(session, operation, Seq::empty());
            assert(Seq::<i32>::empty().to_multiset() == Multiset::<i32>::empty());
        },
        (PhaseView::Opening, _) => {
            assert(Seq::<i32>::empty().to_multiset() == Multiset::<i32>::empty());
        },
        (PhaseView::Duplicating { operation, resource }, ReplyView::Duplicated { fd }) => {
            lemma_closed_one(EffectView::Close { fd });
            lemma_deliver(
                session,
                operation,
                SgcEventView::Granted { resource, fd },
                Seq::empty(),
            );
        },
        (PhaseView::Duplicating { operation, .. }, ReplyView::DuplicateFailed { error }) => {
            let note = noted(NoteView::LendFailed { error });
            lemma_closed_one(note);
            lemma_pass(session, operation, seq![note]);
        },
        (PhaseView::Dispatching, _) => {
            lemma_pump(session, Operation::EventLoop, poll_timeout(None), Seq::empty());
        },
        _ => {},
    }
}

/// The same for a frame that is handed in from outside.
pub proof fn law_frames_handed_in_are_accounted_for(
    client: ClientView,
    operation: Operation,
    message: ServerMessageView,
    fds: Seq<i32>,
)
    requires
        is_lease_table(client.session.held),
    ensures
        owned_fds(client).add(fds.to_multiset()) == placed_fds(
            client.on_message(operation, message, fds),
        ),
{
    let turn = client.session.on_message(operation, message, fds);
    lemma_on_message(client.session, operation, message, fds);
    lemma_close_all(client.phase.fds());
    lemma_closed_add(client.phase.give_up(), turn.step.effects);
    let given_up = closed_fds(client.phase.give_up());
    assert(given_up == phase_fds(client.phase));
    assert(placed_fds(client.on_message(operation, message, fds)) == placed_fds(turn).add(given_up));
    assert(owned_fds(client).add(fds.to_multiset()) == session_fds(client.session).add(
        fds.to_multiset(),
    ).add(given_up));
}

/// The same when an operation starts, also where it takes the place of another
/// one: whatever it does at once, it loses no descriptor and finds none.
pub proof fn law_operations_start_with_what_there_is(
    client: ClientView,
    resource: Resource,
    timeout: Option<u128>,
)
    ensures
        owned_fds(client) == placed_fds(client.acquire(resource)),
        owned_fds(client) == placed_fds(client.pump(timeout)),
        owned_fds(client) == placed_fds(client.start_event_loop()),
{
    lemma_close_all(client.phase.fds());
    lemma_pump(
        client.session,
        Operation::Pump { bounded: timeout is Some },
        poll_timeout(timeout),
        client.phase.give_up(),
    );
    lemma_pump(client.session, Operation::EventLoop, poll_timeout(None), client.phase.give_up());
}

proof fn lemma_granted(events: Seq<SgcEventView>)
    ensures
        granted_fds(events).to_multiset() == pending_fds(events),
    decreases events.len(),
{
    broadcast use group_to_multiset_ensures;

    if events.len() == 0 {
        assert(granted_fds(events).to_multiset() == Multiset::<i32>::empty());
    } else {
        let rest = granted_fds(events.drop_first());
        lemma_granted(events.drop_first());
        lemma_pending_first(events);
        if let SgcEventView::Granted { fd, .. } = events[0] {
            lemma_multiset_commutative(seq![fd], rest);
            assert(seq![fd] == Seq::<i32>::empty().push(fd));
            assert(seq![fd].to_multiset() == Multiset::<i32>::empty().insert(fd));
            assert(Multiset::<i32>::empty().insert(fd) == Multiset::singleton(fd));
        }
    }
}

/// The end of a session leaves nothing open: closing it, at whatever moment,
/// closes each descriptor that it has, once, and no other.
pub proof fn law_closing_leaves_nothing_open(client: ClientView)
    ensures
        closed_fds(close_all(client.owned())) == owned_fds(client),
{
    broadcast use group_to_multiset_ensures;

    let session = client.session;
    lemma_close_all(client.owned());
    lemma_granted(session.pending);
    lemma_multiset_commutative(descriptors(session.held), granted_fds(session.pending));
    lemma_multiset_commutative(session.owned(), client.phase.fds());
    assert(Seq::<i32>::empty().to_multiset() == Multiset::<i32>::empty());
}

} // verus!
