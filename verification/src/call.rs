//! One call to the backend as a sequence of events and steps: the transport
//! reports what it saw, and the operation's rule says what to do next.

use vstd::prelude::*;
use crate::error::ErrorContainer;

verus! {

/// The status with which the backend reports success.
pub const STATUS_OK: u16 = 200;

/// A request to the backend: where it goes and what it carries.
#[derive(Debug, Clone, PartialEq, Eq)]
pub struct Request<B> {
    pub url: String,
    pub body: B,
}

/// What the transport saw, one event at a time.
#[derive(Debug, Clone, PartialEq, Eq)]
pub enum Event<T> {
    /// The request could not be sent, or no answer came.
    TransportFailed,
    /// The backend answered with this status.
    Status(u16),
    /// The payload decoder ran on the body: the payload, where it found one.
    Payload(Option<T>),
    /// The envelope decoder ran on the body: the envelope, where it found one.
    Envelope(Option<ErrorContainer>),
}

/// What to do after an event.
#[derive(Debug, PartialEq, Eq)]
pub enum Step<T, E> {
    /// Run the payload decoder on the body, and report a `Payload` event.
    DecodePayload,
    /// Run the envelope decoder on the body, and report an `Envelope` event.
    DecodeEnvelope,
    /// The call has ended with this result.
    Done(Result<T, E>),
}

/// The step after `event` in an operation whose success carries a payload.
/// `unknown` is the catch-all member of the operation's errors and `table`
/// the operation's reason table.
pub open spec fn answer<T, E>(
    event: Event<T>,
    unknown: E,
    table: spec_fn(Seq<char>) -> E,
) -> Step<T, E> {
    match event {
        Event::TransportFailed => Step::Done(Err(unknown)),
        Event::Status(status) => if status == STATUS_OK {
            Step::DecodePayload
        } else {
            Step::DecodeEnvelope
        },
        Event::Payload(Some(payload)) => Step::Done(Ok(payload)),
        Event::Payload(None) => Step::Done(Err(unknown)),
        Event::Envelope(Some(container)) => Step::Done(Err(table(container.error.reason()))),
        Event::Envelope(None) => Step::Done(Err(unknown)),
    }
}

/// The step after `event` in an operation whose success carries nothing: the
/// success status ends the call, and no payload is looked for.
pub open spec fn bare_answer<E>(
    event: Event<()>,
    unknown: E,
    table: spec_fn(Seq<char>) -> E,
) -> Step<(), E> {
    match event {
        Event::TransportFailed => Step::Done(Err(unknown)),
        Event::Status(status) => if status == STATUS_OK {
            Step::Done(Ok(()))
        } else {
            Step::DecodeEnvelope
        },
        Event::Payload(_) => Step::Done(Ok(())),
        Event::Envelope(Some(container)) => Step::Done(Err(table(container.error.reason()))),
        Event::Envelope(None) => Step::Done(Err(unknown)),
    }
}

/// A body that is no envelope ends every operation with its catch-all error.
pub proof fn lemma_undecodable_envelope_is_unknown<T, E>(
    unknown: E,
    table: spec_fn(Seq<char>) -> E,
)
    ensures
        answer::<T, E>(Event::Envelope(None), unknown, table) == Step::<T, E>::Done(Err(unknown)),
        bare_answer::<E>(Event::Envelope(None), unknown, table) == Step::<(), E>::Done(
            Err(unknown),
        ),
{
}

/// A failed transport ends every operation with its catch-all error; no
/// decoder is asked for.
pub proof fn lemma_transport_failure_is_unknown<T, E>(unknown: E, table: spec_fn(Seq<char>) -> E)
    ensures
        answer::<T, E>(Event::TransportFailed, unknown, table) == Step::<T, E>::Done(Err(unknown)),
        bare_answer::<E>(Event::TransportFailed, unknown, table) == Step::<(), E>::Done(
            Err(unknown),
        ),
{
}

/// Whether `next` is the event that `step` asked for.
pub open spec fn asked_for<T, E>(step: Step<T, E>, next: Event<T>) -> bool {
    match step {
        Step::DecodePayload => next is Payload,
        Step::DecodeEnvelope => next is Envelope,
        Step::Done(_) => false,
    }
}

/// Whether `events` is one call under `rule`, from its start to its end: it
/// starts with what the transport reported of the request, each later event
/// is the one that the step before it asked for, and the last step is `Done`.
pub open spec fn is_call<T, E>(events: Seq<Event<T>>, rule: spec_fn(Event<T>) -> Step<T, E>) -> bool {
    &&& events.len() > 0
    &&& (events[0] is TransportFailed || events[0] is Status)
    &&& forall|i: int|
        0 <= i < events.len() - 1 ==> asked_for(rule(#[trigger] events[i]), events[i + 1])
    &&& rule(events.last()) is Done
}

/// How often the steps after `events` ask for the envelope decoder.
pub open spec fn envelope_decodings<T, E>(
    events: Seq<Event<T>>,
    rule: spec_fn(Event<T>) -> Step<T, E>,
) -> nat
    decreases events.len(),
{
    if events.len() == 0 {
        0
    } else {
        envelope_decodings(events.drop_last(), rule) + (if rule(events.last())
            == Step::<T, E>::DecodeEnvelope {
            1nat
        } else {
            0nat
        })
    }
}

/// The rule of an operation whose success carries a payload.
pub open spec fn payload_rule<T, E>(unknown: E, table: spec_fn(Seq<char>) -> E) -> spec_fn(
    Event<T>,
) -> Step<T, E> {
    |event: Event<T>| answer(event, unknown, table)
}

/// The rule of an operation whose success carries nothing.
pub open spec fn bare_rule<E>(unknown: E, table: spec_fn(Seq<char>) -> E) -> spec_fn(
    Event<()>,
) -> Step<(), E> {
    |event: Event<()>| bare_answer(event, unknown, table)
}

/// What the two rules share: only a status other than success asks for the
/// envelope decoder, and whatever a decoder or a failed transport reports
/// ends the call.
spec fn decodes_envelope_on_failure_only<T, E>(rule: spec_fn(Event<T>) -> Step<T, E>) -> bool {
    forall|event: Event<T>|
        match event {
            Event::Status(status) => status != STATUS_OK <==> #[trigger] rule(event)
                == Step::<T, E>::DecodeEnvelope,
            _ => rule(event) is Done,
        }
}

proof fn lemma_call_decodes_envelope_once<T, E>(
    events: Seq<Event<T>>,
    rule: spec_fn(Event<T>) -> Step<T, E>,
)
    requires
        is_call(events, rule),
        decodes_envelope_on_failure_only(rule),
    ensures
        events.len() <= 2,
        envelope_decodings(events, rule) == (if events[0] is Status && events[0]->Status_0
            != STATUS_OK {
            1nat
        } else {
            0nat
        }),
{
    let first = events[0];
    assert(rule(first) is Done || first is Status);
    if events.len() >= 2 {
        let second = events[1];
        assert(asked_for(rule(first), second));
        assert(second is Payload || second is Envelope);
        assert(rule(second) is Done);
        if events.len() >= 3 {
            assert(asked_for(rule(second), events[2]));
        }
        assert(events.len() == 2);
        assert(events.drop_last().len() == 1);
        assert(events.drop_last().last() == first);
        assert(events.drop_last().drop_last().len() == 0);
        assert(events.last() == second);
        reveal_with_fuel(envelope_decodings, 3);
    } else {
        assert(events.last() == first);
        assert(rule(first) is Done);
        assert(events.drop_last().len() == 0);
        reveal_with_fuel(envelope_decodings, 2);
    }
}

/// In a call of an operation whose success carries a payload, the envelope
/// decoder is asked for exactly once where the status is not the success
/// status, and never where it is or where the transport failed.
pub proof fn lemma_envelope_decoder_runs_once_on_failure<T, E>(
    events: Seq<Event<T>>,
    unknown: E,
    table: spec_fn(Seq<char>) -> E,
)
    requires
        is_call(events, payload_rule::<T, E>(unknown, table)),
    ensures
        envelope_decodings(events, payload_rule::<T, E>(unknown, table)) == (if events[0] is Status
            && events[0]->Status_0 != STATUS_OK {
            1nat
        } else {
            0nat
        }),
{
    lemma_call_decodes_envelope_once(events, payload_rule::<T, E>(unknown, table));
}

/// In a call of an operation whose success carries nothing, the envelope
/// decoder is asked for exactly once where the status is not the success
/// status, and never where it is or where the transport failed.
pub proof fn lemma_envelope_decoder_runs_once_on_bare_failure<E>(
    events: Seq<Event<()>>,
    unknown: E,
    table: spec_fn(Seq<char>) -> E,
)
    requires
        is_call(events, bare_rule::<E>(unknown, table)),
    ensures
        envelope_decodings(events, bare_rule::<E>(unknown, table)) == (if events[0] is Status
            && events[0]->Status_0 != STATUS_OK {
            1nat
        } else {
            0nat
        }),
{
    lemma_call_decodes_envelope_once(events, bare_rule::<E>(unknown, table));
}

} // verus!
