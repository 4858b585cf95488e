//! Laws of the registry, proved over its model.
//!
//! The contracts of [`Oracle`](crate::oracle::Oracle) say that each of its
//! operations acts on its view as the function of the same purpose acts on a
//! [`Registry`], so each law below holds of the executable registry too.

use crate::model::{Call, Registry};
use near_sdk::AccountId;
use vstd::prelude::*;

verus! {

/// A history in which nobody attaches a response to `target` leaves the
/// response of `target` as it was, whatever else the history does.
pub proof fn lemma_unanswered_account_keeps_its_response(
    start: Registry,
    calls: Seq<Call>,
    target: AccountId,
)
    requires
        forall|k: int| 0 <= k < calls.len() ==> !(#[trigger] calls[k]).answers(target),
    ensures
        start.run(calls).lookup(target) == start.lookup(target),
    decreases calls.len(),
{
    if calls.len() > 0 {
        let earlier = calls.drop_last();
        assert forall|k: int| 0 <= k < earlier.len() implies !(#[trigger] earlier[k]).answers(
            target,
        ) by {
            assert(earlier[k] == calls[k]);
        }
        lemma_unanswered_account_keeps_its_response(start, earlier, target);
        assert(!calls[calls.len() - 1].answers(target));
    }
}

/// Starting from the empty registry, an account to which no call of the
/// history attaches a response has no response.
pub proof fn lemma_never_answered_account_has_no_response(calls: Seq<Call>, target: AccountId)
    requires
        forall|k: int| 0 <= k < calls.len() ==> !(#[trigger] calls[k]).answers(target),
    ensures
        Registry::empty().run(calls).lookup(target) is None,
{
    lemma_unanswered_account_keeps_its_response(Registry::empty(), calls, target);
}

/// A response that was attached to an account is read back exactly, the empty
/// text included, and is never mistaken for absence.
pub proof fn lemma_response_is_read_back(start: Registry, target: AccountId, response: Seq<char>)
    ensures
        start.respond(target, response).lookup(target) == Some(response),
        start.respond(target, response).lookup(target) is Some,
{
}

/// Of two responses attached to one account the later one wins, and no trace
/// of the earlier one is kept: the registry is the one that the later call
/// alone would have produced.
pub proof fn lemma_last_response_wins(
    start: Registry,
    target: AccountId,
    first: Seq<char>,
    second: Seq<char>,
)
    ensures
        start.respond(target, first).respond(target, second).lookup(target) == Some(second),
        start.respond(target, first).respond(target, second) == start.respond(target, second),
{
    assert(start.responses.insert(target, first).insert(target, second)
        =~= start.responses.insert(target, second));
}

/// Filing a request changes no response: neither that of the caller nor that
/// of anybody else.
pub proof fn lemma_request_leaves_responses(
    start: Registry,
    caller: AccountId,
    input: Seq<char>,
    model: Seq<char>,
    target: AccountId,
)
    ensures
        start.submit(caller, input, model).lookup(target) == start.lookup(target),
        start.submit(caller, input, model).responses == start.responses,
{
}

/// A response can be attached to an account that has filed no request: it is
/// stored and read back, and the account still has no request afterwards.
pub proof fn lemma_response_needs_no_request(
    start: Registry,
    target: AccountId,
    response: Seq<char>,
)
    requires
        !start.requests.contains_key(target),
    ensures
        start.respond(target, response).lookup(target) == Some(response),
        !start.respond(target, response).requests.contains_key(target),
{
}

/// Attaching a response to one account changes the response of no other.
pub proof fn lemma_response_touches_one_account(
    start: Registry,
    target: AccountId,
    response: Seq<char>,
    other: AccountId,
)
    requires
        other != target,
    ensures
        start.respond(target, response).lookup(other) == start.lookup(other),
        start.respond(target, response).requests == start.requests,
{
}

/// Of two requests filed by one account the later one wins, and no trace of
/// the earlier one is kept.
pub proof fn lemma_last_request_wins(
    start: Registry,
    caller: AccountId,
    first: (Seq<char>, Seq<char>),
    second: (Seq<char>, Seq<char>),
)
    ensures
        start.submit(caller, first.0, first.1).submit(caller, second.0, second.1).requests[caller]
            == second,
        start.submit(caller, first.0, first.1).submit(caller, second.0, second.1) == start.submit(
            caller,
            second.0,
            second.1,
        ),
{
    assert(start.requests.insert(caller, first).insert(caller, second) =~= start.requests.insert(
        caller,
        second,
    ));
}

} // verus!
