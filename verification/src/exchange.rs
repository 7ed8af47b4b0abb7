//! What a handler does over a whole request: the calls that leave the
//! gateway and the outcome that they lead to, whatever the services reply.

use crate::api::{
    add_scanner_step, add_vertiport_step, health_check_step, next_step, CallView, Dependency,
    Failure, OutcomeView, PendingView, ReplyView, StepView,
};
use crate::clock::Timestamp;
use crate::rest_types::{AddScannerRequestView, AddVertiportRequestView};
use crate::records::{outline_of, scanner_type_named, vertiport_record, vertiport_summary};
use vstd::prelude::*;

verus! {

/// A reply on its way back into a handler, and the time at which the
/// handler takes it up.
pub struct Event {
    pub reply: ReplyView,
    pub at: Timestamp,
}

/// The calls that a handler makes from `step` on while the events arrive in
/// their order. A call whose reply is still missing has been made.
pub open spec fn calls_made(step: StepView, events: Seq<Event>) -> Seq<CallView>
    decreases events.len(),
{
    match step {
        StepView::Done(_) => Seq::empty(),
        StepView::Call { call, pending } => if events.len() == 0 {
            seq![call]
        } else {
            seq![call] + calls_made(
                next_step(pending, events[0].reply, events[0].at),
                events.drop_first(),
            )
        },
    }
}

/// The outcome that a handler reaches from `step` on while the events
/// arrive in their order, or `None` while it still waits for a reply.
pub open spec fn outcome(step: StepView, events: Seq<Event>) -> Option<OutcomeView>
    decreases events.len(),
{
    match step {
        StepView::Done(outcome) => Some(outcome),
        StepView::Call { call, pending } => if events.len() == 0 {
            None
        } else {
            outcome(next_step(pending, events[0].reply, events[0].at), events.drop_first())
        },
    }
}

/// The calls among `calls` that go to the given service, in their order.
pub open spec fn calls_to(calls: Seq<CallView>, dependency: Dependency) -> Seq<CallView> {
    calls.filter(|call: CallView| call.dependency() == dependency)
}

/// The reply carries the identifier of a stored object.
pub open spec fn names_object(reply: ReplyView) -> bool {
    reply matches ReplyView::Answered(Some(_))
}

/// Filtering a list of one call.
proof fn calls_to_one(call: CallView, dependency: Dependency)
    ensures
        calls_to(seq![call], dependency) == if call.dependency() == dependency {
            seq![call]
        } else {
            Seq::<CallView>::empty()
        },
{
    let keep = |call: CallView| call.dependency() == dependency;
    reveal_with_fuel(Seq::filter, 2);
    assert(seq![call].drop_last() =~= Seq::<CallView>::empty());
    assert(seq![call].last() == call);
    assert(Seq::<CallView>::empty().filter(keep) =~= Seq::<CallView>::empty());
    assert(seq![call].filter(keep) =~= if keep(call) {
        seq![call]
    } else {
        Seq::<CallView>::empty()
    });
}

/// Filtering a list of two calls.
proof fn calls_to_two(first: CallView, second: CallView, dependency: Dependency)
    ensures
        calls_to(seq![first, second], dependency) == calls_to(seq![first], dependency)
            + calls_to(seq![second], dependency),
{
    let keep = |call: CallView| call.dependency() == dependency;
    assert(seq![first, second] =~= seq![first] + seq![second]);
    Seq::filter_distributes_over_add(seq![first], seq![second], keep);
}

/// A failed call ends the request with a failure, and no further call is
/// asked for: the readiness probe with `Unavailable`, every other call with
/// `Internal`.
pub proof fn failure_ends_the_request(pending: PendingView, now: Timestamp)
    ensures
        next_step(pending, ReplyView::Failed, now) == StepView::Done(
            OutcomeView::Failed(
                if pending is Health {
                    Failure::Unavailable
                } else {
                    Failure::Internal
                },
            ),
        ),
{
}

/// No handler makes more than two calls, and every handler has answered
/// once two replies are in.
pub proof fn at_most_two_calls(pending: PendingView, call: CallView, events: Seq<Event>)
    ensures
        1 <= calls_made(StepView::Call { call, pending }, events).len() <= 2,
        events.len() >= 2 ==> outcome(StepView::Call { call, pending }, events) is Some,
{
    reveal_with_fuel(calls_made, 3);
    reveal_with_fuel(outcome, 3);
}

/// A handler that waits for an insertion answers with the identifier that
/// storage gave the record, and with `Internal` where the insertion failed
/// or was answered without a stored object. It makes no other call.
pub proof fn insert_reports_the_stored_identifier(call: CallView, events: Seq<Event>)
    requires
        events.len() > 0,
    ensures
        calls_made(StepView::Call { call, pending: PendingView::Insert }, events) == seq![call],
        outcome(StepView::Call { call, pending: PendingView::Insert }, events) == Some(
            match events[0].reply {
                ReplyView::Answered(Some(identifier)) => OutcomeView::Created(identifier),
                _ => OutcomeView::Failed(Failure::Internal),
            },
        ),
{
    reveal_with_fuel(calls_made, 3);
    reveal_with_fuel(outcome, 3);
    assert(calls_made(StepView::Call { call, pending: PendingView::Insert }, events) =~= seq![
        call,
    ]);
}

/// An identifier that a request is answered with is one that storage has
/// given out: the gateway keeps no records and makes up no identifier of a
/// stored record.
pub proof fn created_identifier_comes_from_storage(
    call: CallView,
    pending: PendingView,
    events: Seq<Event>,
    identifier: Seq<char>,
)
    requires
        pending is Insert || pending is VertiportInsert,
        outcome(StepView::Call { call, pending }, events) == Some(
            OutcomeView::Created(identifier),
        ),
    ensures
        events.len() > 0,
        events[0].reply == ReplyView::Answered(Some(identifier)),
{
    reveal_with_fuel(outcome, 4);
}

/// The health check asks storage, and nobody else, whether it is ready. It
/// reports health if and only if that probe is answered, and `Unavailable`,
/// status 503, if and only if the probe fails.
pub proof fn health_follows_the_storage_probe(events: Seq<Event>)
    requires
        events.len() > 0,
    ensures
        calls_made(health_check_step(), events) == seq![CallView::IsReady],
        calls_to(calls_made(health_check_step(), events), Dependency::Geospatial).len() == 0,
        outcome(health_check_step(), events) == Some(OutcomeView::Healthy)
            <==> events[0].reply is Answered,
        outcome(health_check_step(), events) == Some(
            OutcomeView::Failed(Failure::Unavailable),
        ) <==> events[0].reply is Failed,
        outcome(health_check_step(), events) is Some,
        outcome(health_check_step(), events)->0.status_code() == if events[0].reply
            is Answered {
            200u16
        } else {
            503u16
        },
        outcome(health_check_step(), events)->0.body() is None,
{
    reveal_with_fuel(calls_made, 3);
    reveal_with_fuel(outcome, 3);
    assert(calls_made(health_check_step(), events) =~= seq![CallView::IsReady]);
    calls_to_one(CallView::IsReady, Dependency::Geospatial);
}

/// Where adding a vertiport succeeds, the response is the identifier under
/// which storage holds the vertiport, and exactly two calls were made: the
/// insertion into storage and then one update of the geospatial service,
/// which lists that vertiport alone, under that identifier and the
/// request's label, with the request's vertices in their order.
pub proof fn vertiport_success_updates_geospatial_once(
    request: AddVertiportRequestView,
    events: Seq<Event>,
    identifier: Seq<char>,
)
    requires
        outcome(add_vertiport_step(request), events) == Some(OutcomeView::Created(identifier)),
    ensures
        events.len() >= 2,
        events[0].reply == ReplyView::Answered(Some(identifier)),
        events[1].reply is Answered,
        calls_made(add_vertiport_step(request), events) == seq![
            CallView::InsertVertiport(vertiport_record(request)),
            CallView::UpdateVertiports(
                seq![vertiport_summary(identifier, request.label, request.vertices, events[0].at)],
            ),
        ],
        calls_to(calls_made(add_vertiport_step(request), events), Dependency::Geospatial)
            == seq![
            CallView::UpdateVertiports(
                seq![vertiport_summary(identifier, request.label, request.vertices, events[0].at)],
            ),
        ],
        vertiport_summary(identifier, request.label, request.vertices, events[0].at).vertices
            == outline_of(request.vertices),
        forall|i: int|
            0 <= i < request.vertices.len() ==> {
                &&& (#[trigger] outline_of(request.vertices)[i]).latitude
                    == request.vertices[i].0
                &&& outline_of(request.vertices)[i].longitude == request.vertices[i].1
            },
{
    reveal_with_fuel(calls_made, 4);
    reveal_with_fuel(outcome, 4);
    let insert = CallView::InsertVertiport(vertiport_record(request));
    let update = CallView::UpdateVertiports(
        seq![vertiport_summary(identifier, request.label, request.vertices, events[0].at)],
    );
    assert(events.len() >= 2);
    assert(calls_made(add_vertiport_step(request), events) =~= seq![insert, update]);
    calls_to_two(insert, update, Dependency::Geospatial);
    calls_to_one(insert, Dependency::Geospatial);
    calls_to_one(update, Dependency::Geospatial);
    assert(Seq::<CallView>::empty() + seq![update] =~= seq![update]);
}

/// Where adding a vertiport succeeds and storage names its objects by
/// non-empty identifiers, the body of the response is a non-empty
/// identifier, under status 200.
pub proof fn vertiport_success_names_the_vertiport(
    request: AddVertiportRequestView,
    events: Seq<Event>,
    identifier: Seq<char>,
)
    requires
        outcome(add_vertiport_step(request), events) == Some(OutcomeView::Created(identifier)),
        forall|i: int|
            0 <= i < events.len() ==> ((#[trigger] events[i]).reply matches ReplyView::Answered(
                Some(object),
            ) ==> object.len() > 0),
    ensures
        identifier.len() > 0,
        OutcomeView::Created(identifier).status_code() == 200,
        OutcomeView::Created(identifier).body() == Some(identifier),
{
    vertiport_success_updates_geospatial_once(request, events, identifier);
}

/// Where the insertion of a vertiport into storage fails, or is answered
/// without a stored object, the request ends with `Internal`, status 500,
/// and the geospatial service receives no call. It receives none either
/// while the insertion is unanswered.
pub proof fn failed_vertiport_insert_spares_geospatial(
    request: AddVertiportRequestView,
    events: Seq<Event>,
)
    requires
        events.len() == 0 || !names_object(events[0].reply),
    ensures
        calls_made(add_vertiport_step(request), events) == seq![
            CallView::InsertVertiport(vertiport_record(request)),
        ],
        calls_to(calls_made(add_vertiport_step(request), events), Dependency::Geospatial).len()
            == 0,
        events.len() > 0 ==> outcome(add_vertiport_step(request), events) == Some(
            OutcomeView::Failed(Failure::Internal),
        ),
        events.len() > 0 ==> OutcomeView::Failed(Failure::Internal).status_code() == 500,
{
    reveal_with_fuel(calls_made, 3);
    reveal_with_fuel(outcome, 3);
    let insert = CallView::InsertVertiport(vertiport_record(request));
    assert(calls_made(add_vertiport_step(request), events) =~= seq![insert]);
    calls_to_one(insert, Dependency::Geospatial);
}

/// The geospatial service is called only after storage has answered the
/// insertion with the identifier of the stored vertiport.
pub proof fn geospatial_waits_for_storage(request: AddVertiportRequestView, events: Seq<Event>)
    requires
        calls_to(calls_made(add_vertiport_step(request), events), Dependency::Geospatial).len()
            > 0,
    ensures
        events.len() > 0,
        names_object(events[0].reply),
{
    if events.len() == 0 || !names_object(events[0].reply) {
        failed_vertiport_insert_spares_geospatial(request, events);
    }
}

/// A request for a scanner whose kind is none of `underbelly`, `mobile`,
/// `locker` and `facility` fails at once, with status 500, and no service
/// receives a call, whatever events are at hand.
pub proof fn unknown_scanner_type_reaches_no_service(
    request: AddScannerRequestView,
    events: Seq<Event>,
)
    requires
        request.scanner_type != "underbelly"@,
        request.scanner_type != "mobile"@,
        request.scanner_type != "locker"@,
        request.scanner_type != "facility"@,
    ensures
        add_scanner_step(request) == StepView::Done(OutcomeView::Failed(Failure::InvalidInput)),
        calls_made(add_scanner_step(request), events).len() == 0,
        outcome(add_scanner_step(request), events) == Some(
            OutcomeView::Failed(Failure::InvalidInput),
        ),
        OutcomeView::Failed(Failure::InvalidInput).status_code() == 500,
        OutcomeView::Failed(Failure::InvalidInput).body() is None,
{
    reveal_with_fuel(calls_made, 2);
    reveal_with_fuel(outcome, 2);
}

/// A request for a scanner of one of the four kinds starts with an
/// insertion into storage, so the four names are all that is accepted.
pub proof fn known_scanner_type_is_inserted(request: AddScannerRequestView)
    requires
        request.scanner_type == "underbelly"@ || request.scanner_type == "mobile"@
            || request.scanner_type == "locker"@ || request.scanner_type == "facility"@,
    ensures
        scanner_type_named(request.scanner_type) is Some,
        add_scanner_step(request) matches StepView::Call { call, pending } && call
            is InsertScanner && pending is Insert,
{
}

} // verus!
