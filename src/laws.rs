use vstd::prelude::*;

use crate::lookup::{
    effect, outcome, request_url, step, success_status, Event, ModelState, INVALID_STATUS,
    VALID_STATUS,
};

verus! {

/// A lookup whose body parsed and whose status is a success shows
/// "Valid cep" and, as the record, exactly the fields that were parsed.
pub proof fn lemma_success_sets_record(
    s: ModelState,
    input: Seq<char>,
    status: u16,
    parsed: Seq<Seq<char>>,
)
    requires
        success_status(status),
    ensures
        step(step(s, Event::Input(input)), outcome(status, Some(parsed))) == (ModelState {
            status: VALID_STATUS@,
            record: parsed,
        }),
{
}

/// A lookup answered with a status outside the success range shows
/// "Invalid cep" and keeps the record shown before the request, whether or
/// not the body parsed.
pub proof fn lemma_error_status_keeps_record(
    s: ModelState,
    input: Seq<char>,
    status: u16,
    parsed: Option<Seq<Seq<char>>>,
)
    requires
        !success_status(status),
    ensures
        step(step(s, Event::Input(input)), outcome(status, parsed)) == (ModelState {
            status: INVALID_STATUS@,
            record: s.record,
        }),
{
}

/// A lookup whose body did not parse (or that failed in transport) shows
/// "Invalid cep" and keeps the record shown before the request, whatever the
/// status.
pub proof fn lemma_unparsed_body_keeps_record(s: ModelState, input: Seq<char>, status: u16)
    ensures
        step(step(s, Event::Input(input)), outcome(status, None)) == (ModelState {
            status: INVALID_STATUS@,
            record: s.record,
        }),
{
}

/// Doing the same successful lookup twice in a row asks for the same address
/// both times and leaves the state as the first one left it.
pub proof fn lemma_repeated_lookup_is_idempotent(
    s: ModelState,
    input: Seq<char>,
    status: u16,
    parsed: Seq<Seq<char>>,
)
    requires
        success_status(status),
    ensures
        ({
            let once = step(step(s, Event::Input(input)), outcome(status, Some(parsed)));
            let twice = step(step(once, Event::Input(input)), outcome(status, Some(parsed)));
            &&& twice == once
            &&& effect(Event::Input(input)) == Some(request_url(input))
        }),
{
}

/// Of two responses, the one handled last decides the status line, and a
/// successful one handled last decides the record too, whichever request was
/// sent first: edits only start requests and change nothing shown.
pub proof fn lemma_last_response_wins(
    s: ModelState,
    first: Event,
    second: Event,
    input: Seq<char>,
)
    requires
        !(second is Input),
    ensures
        step(s, Event::Input(input)) == s,
        step(step(s, first), second).status == step(s, second).status,
        second is Ready ==> step(step(s, first), second) == step(s, second),
{
}

} // verus!
