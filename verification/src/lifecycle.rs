//! Histories of calls on one hardware context and on one request, and what
//! holds of every history that is accepted.
//!
//! A history is a sequence of calls. Each call moves the model of the object
//! as the contract of its trampoline says; a call that would be a violation,
//! or for which the reference count has no room, has no next state, and a
//! history that holds one is not accepted. Every request and every hardware
//! context carries the history that led to its state, so what is proved here
//! holds of each of them at every moment.

use vstd::prelude::*;
use crate::hctx::{hctx_run, hctx_step, HctxCall, HwContextModel, SlotState};
use crate::request::{request_run, request_step, PayloadPhase, RequestCall, RequestModel};

verus! {

/// The number of constructions in `calls` that succeeded.
pub open spec fn hctx_constructions(calls: Seq<HctxCall>) -> nat
    decreases calls.len(),
{
    if calls.len() == 0 {
        0
    } else if calls.last() == (HctxCall::Init { built: true }) {
        hctx_constructions(calls.drop_last()) + 1
    } else {
        hctx_constructions(calls.drop_last())
    }
}

/// The number of teardowns in `calls`.
pub open spec fn hctx_teardowns(calls: Seq<HctxCall>) -> nat
    decreases calls.len(),
{
    if calls.len() == 0 {
        0
    } else if calls.last() == HctxCall::Exit {
        hctx_teardowns(calls.drop_last()) + 1
    } else {
        hctx_teardowns(calls.drop_last())
    }
}

/// Every beginning of an accepted history of a hardware context is an
/// accepted history.
pub proof fn lemma_hctx_prefix_accepted(start: HwContextModel, calls: Seq<HctxCall>, n: int)
    requires
        hctx_run(start, calls) is Some,
        0 <= n <= calls.len(),
    ensures
        hctx_run(start, calls.take(n)) is Some,
    decreases calls.len(),
{
    if n == calls.len() {
        assert(calls.take(n) =~= calls);
    } else {
        assert(calls.drop_last().take(n) =~= calls.take(n));
        lemma_hctx_prefix_accepted(start, calls.drop_last(), n);
    }
}

/// In an accepted history of a hardware context that starts with a fresh
/// slot, constructions and teardowns alternate and a construction comes
/// first: at every point there have been as many constructions as teardowns,
/// or one more, and the context is active exactly in the second case.
pub proof fn lemma_hctx_construct_and_destroy_alternate(index: u32, calls: Seq<HctxCall>)
    requires
        hctx_run(HwContextModel::fresh(index), calls) is Some,
    ensures
        hctx_teardowns(calls) <= hctx_constructions(calls) <= hctx_teardowns(calls) + 1,
        hctx_run(HwContextModel::fresh(index), calls)->0.active() <==> hctx_constructions(calls)
            == hctx_teardowns(calls) + 1,
        hctx_run(HwContextModel::fresh(index), calls)->0.state == SlotState::Uninitialized
            ==> hctx_constructions(calls) == 0,
        hctx_run(HwContextModel::fresh(index), calls)->0.index == index,
    decreases calls.len(),
{
    if calls.len() > 0 {
        lemma_hctx_construct_and_destroy_alternate(index, calls.drop_last());
    }
}

/// In an accepted history of a hardware context that starts with a fresh
/// slot, each call stands where it may: a construction where every earlier
/// construction has been torn down, and a dispatch or a teardown after a
/// construction that has not been torn down yet. So no dispatch comes
/// before the first construction, after a teardown that no construction
/// has followed, or after a construction that failed.
pub proof fn lemma_hctx_calls_in_order(index: u32, calls: Seq<HctxCall>, n: int)
    requires
        hctx_run(HwContextModel::fresh(index), calls) is Some,
        0 <= n < calls.len(),
    ensures
        calls[n] is Init ==> hctx_constructions(calls.take(n)) == hctx_teardowns(calls.take(n)),
        calls[n] is Dispatch || calls[n] is Exit ==> hctx_constructions(calls.take(n))
            == hctx_teardowns(calls.take(n)) + 1,
{
    let start = HwContextModel::fresh(index);
    lemma_hctx_prefix_accepted(start, calls, n + 1);
    assert(calls.take(n + 1).drop_last() =~= calls.take(n));
    assert(calls.take(n + 1).last() == calls[n]);
    lemma_hctx_construct_and_destroy_alternate(index, calls.take(n));
}

/// In an accepted history of a hardware context, a construction that failed
/// is the last call: the slot is given up, and every later call on it would
/// be a violation.
pub proof fn lemma_failed_construction_is_last(
    start: HwContextModel,
    calls: Seq<HctxCall>,
    n: int,
)
    requires
        hctx_run(start, calls) is Some,
        0 <= n < calls.len(),
        calls[n] == (HctxCall::Init { built: false }),
    ensures
        n == calls.len() - 1,
{
    if n < calls.len() - 1 {
        lemma_hctx_prefix_accepted(start, calls, n + 2);
        let upto = calls.take(n + 2);
        assert(upto.drop_last() =~= calls.take(n + 1));
        assert(upto.drop_last().drop_last() =~= calls.take(n));
        assert(upto.drop_last().last() == calls[n]);
        lemma_hctx_prefix_accepted(start, calls, n);
        let before = hctx_run(start, calls.take(n))->0;
        assert(hctx_run(start, upto.drop_last()) == hctx_step(before, calls[n]));
        assert(hctx_run(start, upto) == hctx_step(before.failed(), upto.last()));
    }
}

/// The number of calls in `calls` that are equal to `call`.
pub open spec fn request_calls(calls: Seq<RequestCall>, call: RequestCall) -> nat
    decreases calls.len(),
{
    if calls.len() == 0 {
        0
    } else if calls.last() == call {
        request_calls(calls.drop_last(), call) + 1
    } else {
        request_calls(calls.drop_last(), call)
    }
}

/// The number of payload constructions in `calls` that succeeded.
pub open spec fn payload_constructions(calls: Seq<RequestCall>) -> nat {
    request_calls(calls, RequestCall::InitRequest { built: true })
}

/// The number of payload destructions in `calls`.
pub open spec fn payload_destructions(calls: Seq<RequestCall>) -> nat {
    request_calls(calls, RequestCall::ExitRequest)
}

/// The number of submissions in `calls` that the driver accepted.
pub open spec fn accepted_submissions(calls: Seq<RequestCall>) -> nat {
    request_calls(calls, RequestCall::Submit { accepted: true })
}

/// The number of completions in `calls`.
pub open spec fn completions(calls: Seq<RequestCall>) -> nat {
    request_calls(calls, RequestCall::Complete)
}

/// The number of submissions in `calls` that the driver refused.
pub open spec fn refused_submissions(calls: Seq<RequestCall>) -> nat {
    request_calls(calls, RequestCall::Submit { accepted: false })
}

/// The number of references that were taken in `calls`: by the block layer
/// for itself, and by the trampolines for the driver.
pub open spec fn references_taken(calls: Seq<RequestCall>) -> nat {
    request_calls(calls, RequestCall::Issue) + request_calls(calls, RequestCall::Get)
}

/// The number of references that were given up in `calls`: by the block
/// layer, by the trampolines where the driver refused a submission, and by
/// the driver where a submission was completed.
pub open spec fn references_dropped(calls: Seq<RequestCall>) -> nat {
    request_calls(calls, RequestCall::Put) + refused_submissions(calls) + completions(calls)
}

/// A call that is no violation keeps a request well formed.
pub proof fn lemma_request_step_keeps_wf(rq: RequestModel, call: RequestCall)
    requires
        rq.wf(),
        request_step(rq, call) is Some,
    ensures
        request_step(rq, call)->0.wf(),
        request_step(rq, call)->0.tag == rq.tag,
{
}

/// Every beginning of an accepted history of a request is an accepted
/// history.
pub proof fn lemma_request_prefix_accepted(start: RequestModel, calls: Seq<RequestCall>, n: int)
    requires
        request_run(start, calls) is Some,
        0 <= n <= calls.len(),
    ensures
        request_run(start, calls.take(n)) is Some,
    decreases calls.len(),
{
    if n == calls.len() {
        assert(calls.take(n) =~= calls);
    } else {
        assert(calls.drop_last().take(n) =~= calls.take(n));
        lemma_request_prefix_accepted(start, calls.drop_last(), n);
    }
}

/// In an accepted history of a request that starts with a fresh slot, the
/// payload is constructed at most once and destroyed at most once, and never
/// destroyed without having been constructed. The slot is vacant before the
/// construction, live between construction and destruction, and retired
/// after the destruction.
pub proof fn lemma_payload_constructed_and_destroyed_once(tag: u32, calls: Seq<RequestCall>)
    requires
        request_run(RequestModel::fresh(tag), calls) is Some,
    ensures
        payload_destructions(calls) <= payload_constructions(calls) <= 1,
        request_run(RequestModel::fresh(tag), calls)->0.phase == (if payload_constructions(calls)
            == 0 {
            PayloadPhase::Vacant
        } else if payload_destructions(calls) == 0 {
            PayloadPhase::Live
        } else {
            PayloadPhase::Retired
        }),
        request_run(RequestModel::fresh(tag), calls)->0.wf(),
        request_run(RequestModel::fresh(tag), calls)->0.tag == tag,
    decreases calls.len(),
{
    if calls.len() > 0 {
        lemma_payload_constructed_and_destroyed_once(tag, calls.drop_last());
    }
}

/// In an accepted history of a request that starts with a fresh slot, the
/// driver holds one reference for each submission that it accepted and that
/// has not been completed, and the reference count is the number of
/// references that were taken and not given up. So there are never more
/// completions than accepted submissions, and never more references given
/// up than were taken: the count does not go below zero.
pub proof fn lemma_references_accounted_for(tag: u32, calls: Seq<RequestCall>)
    requires
        request_run(RequestModel::fresh(tag), calls) is Some,
    ensures
        completions(calls) <= accepted_submissions(calls),
        references_dropped(calls) <= references_taken(calls),
        request_run(RequestModel::fresh(tag), calls)->0.held == accepted_submissions(calls)
            - completions(calls),
        request_run(RequestModel::fresh(tag), calls)->0.refs == references_taken(calls)
            - references_dropped(calls),
    decreases calls.len(),
{
    if calls.len() > 0 {
        lemma_references_accounted_for(tag, calls.drop_last());
        lemma_payload_constructed_and_destroyed_once(tag, calls.drop_last());
    }
}

/// In an accepted history of a request that starts with a fresh slot, each
/// call stands where it may. Before a submission, accepted or refused, the
/// payload has been constructed exactly once and has not been destroyed.
/// Before a completion there is an accepted submission that has not been
/// completed. The payload is destroyed only when every accepted submission
/// has been completed and every reference that was taken has been given up.
pub proof fn lemma_request_calls_in_order(tag: u32, calls: Seq<RequestCall>, n: int)
    requires
        request_run(RequestModel::fresh(tag), calls) is Some,
        0 <= n < calls.len(),
    ensures
        calls[n] is InitRequest ==> payload_constructions(calls.take(n)) == 0,
        calls[n] is Submit || calls[n] is Issue || calls[n] is Get || calls[n] is Complete
            || calls[n] is Put || calls[n] is ExitRequest ==> payload_constructions(calls.take(n))
            == 1 && payload_destructions(calls.take(n)) == 0,
        calls[n] is Complete ==> completions(calls.take(n)) < accepted_submissions(calls.take(n)),
        calls[n] is ExitRequest ==> completions(calls.take(n)) == accepted_submissions(
            calls.take(n),
        ) && references_dropped(calls.take(n)) == references_taken(calls.take(n)),
{
    let start = RequestModel::fresh(tag);
    lemma_request_prefix_accepted(start, calls, n + 1);
    assert(calls.take(n + 1).drop_last() =~= calls.take(n));
    assert(calls.take(n + 1).last() == calls[n]);
    lemma_payload_constructed_and_destroyed_once(tag, calls.take(n));
    lemma_references_accounted_for(tag, calls.take(n));
}

/// In an accepted history of a request that starts with a fresh slot, the
/// destruction of the payload is the last call: the slot has left the pool
/// for good, and every later call on it would be a violation.
pub proof fn lemma_destruction_is_last(tag: u32, calls: Seq<RequestCall>, n: int)
    requires
        request_run(RequestModel::fresh(tag), calls) is Some,
        0 <= n < calls.len(),
        calls[n] is ExitRequest,
    ensures
        n == calls.len() - 1,
{
    if n < calls.len() - 1 {
        let start = RequestModel::fresh(tag);
        lemma_request_prefix_accepted(start, calls, n + 2);
        let upto = calls.take(n + 2);
        assert(upto.drop_last() =~= calls.take(n + 1));
        assert(upto.drop_last().drop_last() =~= calls.take(n));
        assert(upto.drop_last().last() == calls[n]);
        lemma_request_prefix_accepted(start, calls, n);
        lemma_payload_constructed_and_destroyed_once(tag, calls.take(n));
        let before = request_run(start, calls.take(n))->0;
        assert(request_run(start, upto.drop_last()) == request_step(before, calls[n]));
        let after = before.destroyed();
        assert(request_run(start, upto) == request_step(after, upto.last()));
        assert(request_step(after, upto.last()) is None);
    }
}

/// When the payload of a request has been destroyed, every submission that
/// the driver accepted has been completed exactly once, and every reference
/// that was taken has been given up exactly once: nothing has leaked, and
/// nothing was completed or given up twice.
pub proof fn lemma_retired_request_is_balanced(tag: u32, calls: Seq<RequestCall>)
    requires
        request_run(RequestModel::fresh(tag), calls) is Some,
        request_run(RequestModel::fresh(tag), calls)->0.phase == PayloadPhase::Retired,
    ensures
        payload_constructions(calls) == 1,
        payload_destructions(calls) == 1,
        completions(calls) == accepted_submissions(calls),
        references_dropped(calls) == references_taken(calls),
        request_run(RequestModel::fresh(tag), calls)->0.refs == 0,
{
    lemma_payload_constructed_and_destroyed_once(tag, calls);
    lemma_references_accounted_for(tag, calls);
}

/// The number of calls equal to `call` in all of `histories` together.
pub open spec fn total_calls(histories: Seq<Seq<RequestCall>>, call: RequestCall) -> nat
    decreases histories.len(),
{
    if histories.len() == 0 {
        0
    } else {
        total_calls(histories.drop_last(), call) + request_calls(histories.last(), call)
    }
}

/// Whether `calls` is an accepted history of the request `tag` from a fresh
/// slot, after which the driver holds no reference to the request.
pub open spec fn leaves_driver_idle(tag: u32, calls: Seq<RequestCall>) -> bool {
    request_run(RequestModel::fresh(tag), calls) matches Some(rq) && rq.held == 0
}

/// Take the requests of a pool, each with an accepted history that starts
/// with a fresh slot, however the calls on different requests and on
/// different hardware contexts were interleaved. When the driver holds no
/// reference to any of them, there have been exactly as many completions as
/// submissions that the driver accepted, over all requests together.
pub proof fn lemma_idle_pool_is_balanced(tags: Seq<u32>, histories: Seq<Seq<RequestCall>>)
    requires
        tags.len() == histories.len(),
        forall|i: int| 0 <= i < histories.len() ==> leaves_driver_idle(tags[i], histories[i]),
    ensures
        total_calls(histories, RequestCall::Complete) == total_calls(
            histories,
            RequestCall::Submit { accepted: true },
        ),
    decreases histories.len(),
{
    if histories.len() > 0 {
        let last = histories.len() - 1;
        assert forall|i: int| 0 <= i < histories.drop_last().len() implies leaves_driver_idle(
            tags.drop_last()[i],
            histories.drop_last()[i],
        ) by {
            assert(leaves_driver_idle(tags[i], histories[i]));
        }
        lemma_idle_pool_is_balanced(tags.drop_last(), histories.drop_last());
        assert(leaves_driver_idle(tags[last], histories[last]));
        lemma_references_accounted_for(tags[last], histories[last]);
    }
}

/// In an accepted history of a request that starts with a fresh slot, the
/// reference count reaches zero only by the block layer giving up its last
/// reference: never by a completion, and never by a submission that the
/// driver refused.
pub proof fn lemma_only_the_block_layer_reaches_zero(tag: u32, calls: Seq<RequestCall>, n: int)
    requires
        request_run(RequestModel::fresh(tag), calls) is Some,
        0 <= n < calls.len(),
        request_run(RequestModel::fresh(tag), calls.take(n))->0.refs > 0,
        request_run(RequestModel::fresh(tag), calls.take(n + 1))->0.refs == 0,
    ensures
        calls[n] is Put,
        request_run(RequestModel::fresh(tag), calls.take(n))->0.held == 0,
{
    let start = RequestModel::fresh(tag);
    lemma_request_prefix_accepted(start, calls, n + 1);
    assert(calls.take(n + 1).drop_last() =~= calls.take(n));
    assert(calls.take(n + 1).last() == calls[n]);
    lemma_payload_constructed_and_destroyed_once(tag, calls.take(n));
}

/// The steps of a submission. A reference is taken; where the driver
/// refuses, the request is then as it was before; where the driver accepts,
/// it holds the reference until the completion, after which the request is
/// as it was before the submission. Without a submission that the driver
/// accepted, a completion is a violation.
pub proof fn lemma_submission_steps(rq: RequestModel)
    requires
        rq.wf(),
        rq.take_violation() is None,
        rq.refs < u64::MAX,
    ensures
        request_step(rq, RequestCall::Get) == Some(rq.with_ref()),
        request_step(rq.with_ref(), RequestCall::Submit { accepted: false }) == Some(rq),
        request_step(rq.with_ref(), RequestCall::Submit { accepted: true }) == Some(
            rq.submitted(),
        ),
        request_step(rq.submitted(), RequestCall::Complete) == Some(rq),
        rq.held == 0 ==> request_step(rq, RequestCall::Complete) is None,
{
}

} // verus!
