//! What the words mean that the other laws and the contracts are written in:
//! views, leases, waits and effects, each in terms of what it is made of.
use vstd::prelude::*;

use crate::client::{error_view, event_views, News};
use crate::driver::{
    effect_views, Action, ActionView, Effect, EffectView, Note, NoteView, Outcome, OutcomeView,
    Reply, ReplyView, SgcEvent, SgcEventView, Step,
};
use crate::error::{eof_error, IoError, IoErrorKind, IoErrorView, SgcError, SgcErrorView};
use crate::frame::{Received, ReceivedView};
use crate::lease::{
    canonical, descriptors, holds, is_lease_table, lemma_without_absent, lemma_without_at,
    resources, with, without, Lease,
};
use crate::protocol::{
    request_frame, ClientRequest, ProtocolError, ProtocolErrorView, Resource, ServerMessage,
    ServerMessageView,
};
use crate::session::{
    close_all, close_canonical, close_unexpected, granted_fds, noted, send, NewsView, Operation,
    PhaseView, Session,
};
use crate::wait::{
    failure_meaning, poll_timeout, ready_meaning, reply_wait_left, Readiness, ReadinessView,
};

verus! {

// --- Leases ---

/// Where the lease on a resource is in a table: its index, or -1 if there is
/// none.
pub open spec fn is_place(leases: Seq<Lease>, resource: Resource, at: int) -> bool {
    ||| 0 <= at < leases.len() && leases[at].resource == resource
    ||| at == -1 && forall|i: int|
        0 <= i < leases.len() ==> (#[trigger] leases[i]).resource != resource
}

/// The leases but for the one at a place.
pub open spec fn taken_out(leases: Seq<Lease>, at: int) -> Seq<Lease> {
    if at < 0 {
        leases
    } else {
        leases.take(at) + leases.skip(at + 1)
    }
}

/// A table has no resource twice; that and nothing else makes it one.
pub proof fn law_a_table_has_no_resource_twice(leases: Seq<Lease>, i: int, j: int)
    requires
        0 <= i < leases.len(),
        0 <= j < leases.len(),
    ensures
        is_lease_table(leases) && leases[i].resource == leases[j].resource ==> i == j,
        (forall|a: int, b: int|
            0 <= a < leases.len() && 0 <= b < leases.len() && (#[trigger] leases[a]).resource == (
            #[trigger] leases[b]).resource ==> a == b) ==> is_lease_table(leases),
{
}

/// A resource is held exactly when it has a place in the table, on the
/// descriptor that stands there. Ending the lease takes out what stands there
/// and nothing else, and a new lease comes last, in place of any before.
pub proof fn law_a_lease_has_one_place(
    leases: Seq<Lease>,
    resource: Resource,
    fd: i32,
    at: int,
)
    requires
        is_lease_table(leases),
        is_place(leases, resource, at),
    ensures
        holds(leases, resource) <==> at >= 0,
        at >= 0 ==> canonical(leases, resource) == leases[at].fd,
        without(leases, resource) == taken_out(leases, at),
        with(leases, resource, fd) == taken_out(leases, at).push(Lease { resource, fd }),
{
    lemma_place(leases, resource, at);
}

pub(crate) proof fn lemma_place(leases: Seq<Lease>, resource: Resource, at: int)
    requires
        is_lease_table(leases),
        is_place(leases, resource, at),
    ensures
        holds(leases, resource) <==> at >= 0,
        at >= 0 ==> canonical(leases, resource) == leases[at].fd,
        without(leases, resource) == taken_out(leases, at),
{
    if at >= 0 {
        lemma_without_at(leases, at);
        assert(leases.remove(at) == leases.take(at) + leases.skip(at + 1));
    } else {
        lemma_without_absent(leases, resource);
    }
}

/// The lists made from a table name what each lease is about, in order.
pub proof fn law_lists_of_a_table(leases: Seq<Lease>)
    ensures
        resources(leases).len() == leases.len(),
        descriptors(leases).len() == leases.len(),
        forall|i: int|
            0 <= i < leases.len() ==> #[trigger] resources(leases)[i] == leases[i].resource,
        forall|i: int| 0 <= i < leases.len() ==> #[trigger] descriptors(leases)[i] == leases[i].fd,
{
}

// --- Waits ---

/// Waiting without a limit is -1; any other wait is so many whole milliseconds,
/// rounded down, and as long as poll(2) can wait if it is longer than that.
pub proof fn law_a_wait_in_milliseconds(nanos: u128)
    ensures
        poll_timeout(None) == -1,
        nanos < 2_147_483_648_000_000 ==> poll_timeout(Some(nanos)) * 1_000_000 <= nanos < (
        poll_timeout(Some(nanos)) + 1) * 1_000_000,
        nanos >= 2_147_483_648_000_000 ==> poll_timeout(Some(nanos)) == 2_147_483_647,
{
}

/// What has gone by and what is left make a quarter of a second, until it is
/// over.
pub proof fn law_what_is_left_of_a_wait(elapsed: u128)
    ensures
        elapsed <= 250_000_000 ==> elapsed + reply_wait_left(elapsed) == 250_000_000,
        elapsed >= 250_000_000 ==> reply_wait_left(elapsed) == 0,
{
}

/// A wait that found something means that the socket can be read, one that
/// found nothing that nothing happened. A signal means the latter where the wait
/// had a limit, and to wait again where it had none. Any other failure is one.
pub proof fn law_what_a_wait_means(ready: i32, bounded: bool, error: IoErrorView)
    ensures
        ready > 0 ==> ready_meaning(ready) == ReadinessView::Readable,
        ready <= 0 ==> ready_meaning(ready) == ReadinessView::Quiet,
        error.kind == IoErrorKind::Interrupted && bounded ==> failure_meaning(bounded, error)
            == ReadinessView::Quiet,
        error.kind == IoErrorKind::Interrupted && !bounded ==> failure_meaning(bounded, error)
            == ReadinessView::Again,
        error.kind != IoErrorKind::Interrupted ==> failure_meaning(bounded, error)
            == (ReadinessView::Failed { error }),
{
}

/// An acquire always waits with a limit, the event loop never, and a pump as it
/// is told.
pub proof fn law_which_waits_are_bounded(resource: Resource, bounded: bool)
    ensures
        (Operation::Acquire { resource }).is_bounded(),
        (Operation::Pump { bounded }).is_bounded() == bounded,
        !Operation::EventLoop.is_bounded(),
        !Operation::Connect.is_bounded(),
{
}

/// The end of the stream is the operating system's word for it.
pub proof fn law_the_end_of_the_stream()
    ensures
        eof_error().kind == IoErrorKind::UnexpectedEof,
        eof_error().code is None,
        eof_error().message == "unexpected end of file"@,
{
}

// --- Effects ---

/// Closing some descriptors closes each of them, in order, and does nothing
/// else.
pub proof fn law_closing_names_each_descriptor(fds: Seq<i32>)
    ensures
        close_all(fds).len() == fds.len(),
        forall|i: int|
            0 <= i < fds.len() ==> #[trigger] close_all(fds)[i] == (EffectView::Close {
                fd: fds[i],
            }),
{
}

/// Sending a request writes its frame, a note is passed on as it is, and the
/// canonical descriptor is closed where there is one.
pub proof fn law_what_effects_are(
    request: ClientRequest,
    note: NoteView,
    leases: Seq<Lease>,
    resource: Resource,
    at: int,
)
    requires
        is_lease_table(leases),
        is_place(leases, resource, at),
    ensures
        send(request) == (EffectView::Send { frame: request_frame(request) }),
        noted(note) == (EffectView::Note { note }),
        at >= 0 ==> close_canonical(leases, resource) == seq![
            EffectView::Close { fd: leases[at].fd },
        ],
        at < 0 ==> close_canonical(leases, resource).len() == 0,
{
    lemma_place(leases, resource, at);
}

/// Nothing is done about an opening frame without descriptors; with some, their
/// number is noted and each is closed.
pub proof fn law_what_is_done_about_unexpected_descriptors(fds: Seq<i32>)
    ensures
        close_unexpected(fds).len() == if fds.len() == 0 {
            0
        } else {
            fds.len() + 1
        },
        fds.len() > 0 ==> close_unexpected(fds)[0] == (EffectView::Note {
            note: NoteView::UnexpectedDescriptors { count: fds.len() },
        }),
        forall|i: int|
            0 <= i < fds.len() ==> #[trigger] close_unexpected(fds)[i + 1] == (EffectView::Close {
                fd: fds[i],
            }),
{
}

/// The descriptors in events, one event after the other.
pub proof fn law_descriptors_in_events(events: Seq<SgcEventView>, resource: Resource, fd: i32)
    ensures
        granted_fds(Seq::empty()).len() == 0,
        granted_fds(seq![SgcEventView::Granted { resource, fd }] + events) == seq![fd]
            + granted_fds(events),
        granted_fds(seq![SgcEventView::Revoked { resource }] + events) == granted_fds(events),
        forall|list: Seq<Resource>|
            #[trigger] granted_fds(
                seq![SgcEventView::Advertised { available_resources: list }] + events,
            ) == granted_fds(events),
{
    let granted = seq![SgcEventView::Granted { resource, fd }] + events;
    assert(granted.drop_first() == events);
    let revoked = seq![SgcEventView::Revoked { resource }] + events;
    assert(revoked.drop_first() == events);
    assert forall|list: Seq<Resource>|
        #[trigger] granted_fds(
            seq![SgcEventView::Advertised { available_resources: list }] + events,
        ) == granted_fds(events) by {
        let advertised = seq![SgcEventView::Advertised { available_resources: list }] + events;
        assert(advertised.drop_first() == events);
    }
}

/// A new session holds nothing, has nothing to tell and is not at its end. Only
/// a frame that is being read has descriptors with it.
pub proof fn law_where_sessions_begin(phase: PhaseView)
    ensures
        Session::fresh().held.len() == 0,
        Session::fresh().pending.len() == 0,
        Session::fresh().fatal is None,
        phase matches PhaseView::Receiving { frame, .. } ==> phase.fds() == frame.fds,
        !(phase is Receiving) ==> phase.fds().len() == 0,
        phase.give_up() == close_all(phase.fds()),
{
}

// --- Views ---

/// The view of an event shows all of it.
pub proof fn law_events_are_seen_whole(event: SgcEvent)
    ensures
        match event {
            SgcEvent::Revoked { resource } => event@ == (SgcEventView::Revoked { resource }),
            SgcEvent::Granted { resource, fd } => event@ == (SgcEventView::Granted {
                resource,
                fd,
            }),
            SgcEvent::Advertised { available_resources } => {
                event@ matches SgcEventView::Advertised { available_resources: seen } && seen
                    == available_resources@
            },
        },
{
}

/// The view of a message shows all of it.
pub proof fn law_messages_are_seen_whole(message: ServerMessage)
    ensures
        match message {
            ServerMessage::Advertise { available_resources } => {
                message@ matches ServerMessageView::Advertise { available_resources: seen } && seen
                    == available_resources@
            },
            ServerMessage::Grant { resource } => message@ == (ServerMessageView::Grant {
                resource,
            }),
            ServerMessage::Deny { reason } => {
                message@ matches ServerMessageView::Deny { reason: seen } && seen == reason@
            },
            ServerMessage::Revoke { resource } => message@ == (ServerMessageView::Revoke {
                resource,
            }),
        },
{
}

/// The view of a failure shows all of it.
pub proof fn law_failures_are_seen_whole(error: IoError, protocol: ProtocolError)
    ensures
        error@.kind == error.kind,
        error@.code == error.code,
        error@.message == error.message@,
        match protocol {
            ProtocolError::Encode(text) => protocol@ == ProtocolErrorView::Encode(text@),
            ProtocolError::Decode(text) => protocol@ == ProtocolErrorView::Decode(text@),
            ProtocolError::FrameTooLarge(len) => protocol@ == ProtocolErrorView::FrameTooLarge(
                len as nat,
            ),
        },
{
}

/// The view of an error shows all of it.
pub proof fn law_errors_are_seen_whole(error: SgcError)
    ensures
        match error {
            SgcError::ConnectFailed(failure) => error@ == SgcErrorView::ConnectFailed(failure@),
            SgcError::Denied { reason } => {
                error@ matches SgcErrorView::Denied { reason: seen } && seen == reason@
            },
            SgcError::NotHeld { resource } => error@ == (SgcErrorView::NotHeld { resource }),
            SgcError::NotAvailable { resource } => error@ == (SgcErrorView::NotAvailable {
                resource,
            }),
            SgcError::Queued { resource } => error@ == (SgcErrorView::Queued { resource }),
            SgcError::Protocol(failure) => error@ == SgcErrorView::Protocol(failure@),
            SgcError::UnexpectedMessage(message) => error@ == SgcErrorView::UnexpectedMessage(
                message@,
            ),
            SgcError::Io(failure) => error@ == SgcErrorView::Io(failure@),
        },
{
}

/// The view of an effect shows all of it.
pub proof fn law_effects_are_seen_whole(effect: Effect, note: Note)
    ensures
        match effect {
            Effect::Close { fd } => effect@ == (EffectView::Close { fd }),
            Effect::Send { frame } => {
                effect@ matches EffectView::Send { frame: seen } && seen == frame@
            },
            Effect::Note { note } => effect@ == (EffectView::Note { note: note@ }),
        },
        match note {
            Note::UnexpectedDescriptors { count } => note@ == (NoteView::UnexpectedDescriptors {
                count: count as nat,
            }),
            Note::GrantSkipped { count } => note@ == (NoteView::GrantSkipped {
                count: count as nat,
            }),
            Note::MessageSkipped { message } => note@ == (NoteView::MessageSkipped {
                message: message@,
            }),
            Note::LendFailed { error } => note@ == (NoteView::LendFailed { error: error@ }),
        },
{
}

/// The view of an outcome shows all of it.
pub proof fn law_outcomes_are_seen_whole(outcome: Outcome)
    ensures
        match outcome {
            Outcome::Connected { available_resources } => {
                outcome@ matches OutcomeView::Connected { available_resources: seen } && seen
                    == available_resources@
            },
            Outcome::Acquired => outcome@ == OutcomeView::Acquired,
            Outcome::Event { event } => outcome@ == (OutcomeView::Event { event: event@ }),
            Outcome::NoEvent => outcome@ == OutcomeView::NoEvent,
            Outcome::Failed { error } => outcome@ == (OutcomeView::Failed { error: error@ }),
        },
{
}

/// The view of an action shows all of it.
pub proof fn law_actions_are_seen_whole(action: Action)
    ensures
        match action {
            Action::Open { name } => {
                action@ matches ActionView::Open { name: seen } && seen == name@
            },
            Action::Write { frame } => {
                action@ matches ActionView::Write { frame: seen } && seen == frame@
            },
            Action::Clock => action@ == ActionView::Clock,
            Action::Poll { timeout_ms } => action@ == (ActionView::Poll { timeout_ms }),
            Action::Receive { len } => action@ == (ActionView::Receive { len: len as nat }),
            Action::Duplicate { fd } => action@ == (ActionView::Duplicate { fd }),
            Action::Dispatch { event } => action@ == (ActionView::Dispatch { event: event@ }),
            Action::Finish { outcome } => action@ == (ActionView::Finish { outcome: outcome@ }),
        },
{
}

/// The view of a reply shows all of it.
pub proof fn law_replies_are_seen_whole(reply: Reply)
    ensures
        match reply {
            Reply::Opened => reply@ == ReplyView::Opened,
            Reply::AddressRefused { error } => reply@ == (ReplyView::AddressRefused {
                error: error@,
            }),
            Reply::OpenFailed { error } => reply@ == (ReplyView::OpenFailed { error: error@ }),
            Reply::Written => reply@ == ReplyView::Written,
            Reply::WriteFailed { error } => reply@ == (ReplyView::WriteFailed { error: error@ }),
            Reply::Elapsed { nanos } => reply@ == (ReplyView::Elapsed { nanos }),
            Reply::Polled { ready } => reply@ == (ReplyView::Polled { ready }),
            Reply::PollFailed { error } => reply@ == (ReplyView::PollFailed { error: error@ }),
            Reply::Received { bytes, fds } => {
                reply@ matches ReplyView::Received { bytes: seen, fds: with_them } && seen
                    == bytes@ && with_them == fds@
            },
            Reply::ReceiveFailed { error } => reply@ == (ReplyView::ReceiveFailed {
                error: error@,
            }),
            Reply::Duplicated { fd } => reply@ == (ReplyView::Duplicated { fd }),
            Reply::DuplicateFailed { error } => reply@ == (ReplyView::DuplicateFailed {
                error: error@,
            }),
            Reply::Dispatched => reply@ == ReplyView::Dispatched,
        },
{
}

/// The view of what became of a frame, of a message or of a wait shows all of
/// it.
pub proof fn law_results_are_seen_whole(received: Received, news: News, readiness: Readiness)
    ensures
        match received {
            Received::Partial { reader } => received@ == (ReceivedView::Partial {
                frame: reader@,
            }),
            Received::Complete { message, fds } => {
                received@ matches ReceivedView::Complete { message: seen, fds: with_it } && seen
                    == message@ && with_it == fds@
            },
            Received::Failed { error, fds } => {
                received@ matches ReceivedView::Failed { error: seen, fds: with_it } && seen
                    == error@ && with_it == fds@
            },
        },
        match news {
            News::Event { event } => news@ == (NewsView::Event { event: event@ }),
            News::Lend { resource, fd } => news@ == (NewsView::Lend { resource, fd }),
            News::Nothing => news@ == NewsView::Nothing,
        },
        match readiness {
            Readiness::Readable => readiness@ == ReadinessView::Readable,
            Readiness::Quiet => readiness@ == ReadinessView::Quiet,
            Readiness::Again => readiness@ == ReadinessView::Again,
            Readiness::Failed { error } => readiness@ == (ReadinessView::Failed {
                error: error@,
            }),
        },
{
}

/// The view of a step shows every effect, in order, and the action.
pub proof fn law_steps_are_seen_whole(
    step: Step,
    events: Seq<SgcEvent>,
    error: Option<SgcError>,
    i: int,
)
    ensures
        step@.action == step.action@,
        step@.effects == effect_views(step.effects@),
        step@.effects.len() == step.effects@.len(),
        0 <= i < step.effects@.len() ==> step@.effects[i] == step.effects@[i]@,
        event_views(events).len() == events.len(),
        0 <= i < events.len() ==> event_views(events)[i] == events[i]@,
        error is Some <==> error_view(error) is Some,
        error is Some ==> error_view(error)->0 == error->0@,
{
}

} // verus!
