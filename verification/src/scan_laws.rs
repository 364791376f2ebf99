use vstd::prelude::*;
use crate::protocol::{callee_addresses, RequestView, ResponseView};
use crate::scan::{law_step_keeps_form, step_spec, State, Visit};
use crate::world::{honest, honest_answers, replay, settle, World};

verus! {

/// A run has one request more than it has answers, its walker is well formed
/// and waits on the last request of the trace.
pub proof fn lemma_replay_shape(world: World, responses: Seq<ResponseView>)
    ensures
        replay(world, responses).trace.len() == responses.len() + 1,
        replay(world, responses).state.wf(),
        replay(world, responses).state.awaits(replay(world, responses).trace.last()),
    decreases responses.len(),
{
    if responses.len() > 0 {
        lemma_replay_shape(world, responses.drop_last());
        law_step_keeps_form(replay(world, responses.drop_last()).state, responses.last());
    }
}

/// The first requests of a run are the trace of the run on the first answers.
pub proof fn lemma_replay_prefix(world: World, responses: Seq<ResponseView>, k: int)
    requires
        0 <= k <= responses.len(),
    ensures
        replay(world, responses).trace.take(k + 1) == replay(world, responses.take(k)).trace,
        replay(world, responses).trace[k] == replay(world, responses.take(k)).trace.last(),
    decreases responses.len(),
{
    lemma_replay_shape(world, responses);
    lemma_replay_shape(world, responses.take(k));
    if k == responses.len() {
        assert(responses.take(k) == responses);
        assert(replay(world, responses).trace.take(k + 1) == replay(world, responses).trace);
    } else {
        let shorter = responses.drop_last();
        lemma_replay_shape(world, shorter);
        lemma_replay_prefix(world, shorter, k);
        assert(shorter.take(k) == responses.take(k));
        let full = replay(world, responses).trace;
        let part = replay(world, shorter).trace;
        assert(full == part.push(full.last()));
        assert(full.take(k + 1) == part.take(k + 1));
    }
}

/// The first answers of an honest run are an honest run.
pub proof fn lemma_honest_prefix(world: World, responses: Seq<ResponseView>, k: int)
    requires
        honest_answers(world, responses),
        0 <= k <= responses.len(),
    ensures
        honest_answers(world, responses.take(k)),
    decreases responses.len(),
{
    if k == responses.len() {
        assert(responses.take(k) == responses);
    } else {
        let shorter = responses.drop_last();
        lemma_honest_prefix(world, shorter, k);
        assert(shorter.take(k) == responses.take(k));
    }
}

/// Checkpoints are never taken back: whatever was marked when the scan began
/// is marked at every later moment of it.
pub proof fn law_ledger_only_grows(world: World, responses: Seq<ResponseView>)
    ensures
        world.ledger.within(replay(world, responses).world.ledger),
    decreases responses.len(),
{
    if responses.len() > 0 {
        law_ledger_only_grows(world, responses.drop_last());
    }
}

/// What the queue held when the scan began stays at its front, in order.
pub proof fn law_queue_only_grows(world: World, responses: Seq<ResponseView>)
    ensures
        world.queue.is_prefix_of(replay(world, responses).world.queue),
    decreases responses.len(),
{
    if responses.len() > 0 {
        law_queue_only_grows(world, responses.drop_last());
    }
}

/// Resuming is idempotent: in a run whose answers are honest, no block is
/// fetched whose checkpoint is present, and no code is fetched for an address
/// whose checkpoint is present, be it from an earlier run or from this one.
pub proof fn law_checkpointed_never_fetched(world: World, responses: Seq<ResponseView>, k: int)
    requires
        honest_answers(world, responses),
        0 <= k <= responses.len(),
    ensures
        replay(world, responses).trace[k] matches RequestView::FetchBlock { height } ==> {
            &&& !world.ledger.blocks.contains(height)
            &&& !replay(world, responses.take(k)).world.ledger.blocks.contains(height)
        },
        replay(world, responses).trace[k] matches RequestView::FetchCode { address, .. } ==> {
            &&& !world.ledger.addresses.contains(address)
            &&& !replay(world, responses.take(k)).world.ledger.addresses.contains(address)
        },
{
    let answers = responses.take(k);
    lemma_replay_prefix(world, responses, k);
    lemma_honest_prefix(world, responses, k);
    law_ledger_only_grows(world, answers);
    if k > 0 {
        lemma_replay_shape(world, answers.drop_last());
    }
}

/// The greatest height at which the walker in `state` may still fetch a block
/// before it next asks for the chain head.
pub open spec fn ceiling(state: State) -> int {
    match state {
        State::AwaitHead => u64::MAX as int,
        State::AwaitShutdown { height } | State::AwaitBlockCheck { height } => height as int,
        State::AwaitBlock { height } => height - 1,
        State::AwaitAddressCheck { visit }
        | State::AwaitCode { visit }
        | State::AwaitAddressMark { visit, .. }
        | State::AwaitEnqueue { visit }
        | State::AwaitBlockMark { visit } => visit.height - 1,
        State::Finished | State::Failed { .. } => -1,
    }
}

/// Whether the chain head is asked for nowhere in `trace` after index `i` and
/// before index `j`.
pub open spec fn one_pass(trace: Seq<RequestView>, i: int, j: int) -> bool {
    forall|k: int| i < k < j ==> !(#[trigger] trace[k] is QueryHead)
}

/// Every block fetched in the pass under way lies above the ceiling of the
/// walker, and the blocks fetched in one pass descend.
proof fn lemma_descent(world: World, responses: Seq<ResponseView>)
    ensures
        forall|i: int|
            #![trigger replay(world, responses).trace[i]]
            0 <= i <= responses.len() && replay(world, responses).trace[i] is FetchBlock
                && one_pass(replay(world, responses).trace, i, responses.len() as int + 1)
                ==> replay(world, responses).trace[i]->FetchBlock_height > ceiling(
                replay(world, responses).state,
            ),
        forall|i: int, j: int|
            #![trigger replay(world, responses).trace[i], replay(world, responses).trace[j]]
            0 <= i < j <= responses.len() && replay(world, responses).trace[i] is FetchBlock
                && replay(world, responses).trace[j] is FetchBlock && one_pass(
                replay(world, responses).trace,
                i,
                j,
            ) ==> replay(world, responses).trace[j]->FetchBlock_height < replay(
                world,
                responses,
            ).trace[i]->FetchBlock_height,
    decreases responses.len(),
{
    let run = replay(world, responses);
    lemma_replay_shape(world, responses);
    if responses.len() > 0 {
        let before = replay(world, responses.drop_last());
        let n = responses.len() as int;
        lemma_descent(world, responses.drop_last());
        lemma_replay_shape(world, responses.drop_last());
        assert(run.trace == before.trace.push(run.trace.last()));
        assert forall|i: int|
            #![trigger run.trace[i]]
            0 <= i <= n && run.trace[i] is FetchBlock && one_pass(run.trace, i, n + 1) implies run.trace[i]->FetchBlock_height
            > ceiling(run.state) by {
            if i < n {
                assert(run.trace[i] == before.trace[i]);
                assert(one_pass(before.trace, i, n)) by {
                    assert forall|k: int| i < k < n implies !(#[trigger] before.trace[k]
                        is QueryHead) by {
                        assert(run.trace[k] == before.trace[k]);
                    }
                }
                if i < n - 1 {
                    assert(!(run.trace[n - 1] is QueryHead));
                }
                assert(!(run.trace[n] is QueryHead));
                assert(!(before.state is AwaitHead));
            }
        }
        assert forall|i: int, j: int|
            #![trigger run.trace[i], run.trace[j]]
            0 <= i < j <= n && run.trace[i] is FetchBlock && run.trace[j] is FetchBlock
                && one_pass(run.trace, i, j) implies run.trace[j]->FetchBlock_height
            < run.trace[i]->FetchBlock_height by {
            assert(run.trace[i] == before.trace[i]);
            assert(one_pass(before.trace, i, j)) by {
                assert forall|k: int| i < k < j implies !(#[trigger] before.trace[k]
                    is QueryHead) by {
                    assert(run.trace[k] == before.trace[k]);
                }
            }
            if j < n {
                assert(run.trace[j] == before.trace[j]);
            }
        }
    }
}

/// The scan descends: of two blocks fetched in one pass, that is, with no new
/// reading of the chain head between them, the later one is the lower one.
pub proof fn law_scan_descends(world: World, responses: Seq<ResponseView>, i: int, j: int)
    requires
        0 <= i < j <= responses.len(),
        replay(world, responses).trace[i] is FetchBlock,
        replay(world, responses).trace[j] is FetchBlock,
        one_pass(replay(world, responses).trace, i, j),
    ensures
        replay(world, responses).trace[j]->FetchBlock_height < replay(
            world,
            responses,
        ).trace[i]->FetchBlock_height,
{
    lemma_descent(world, responses);
}

/// Once the walker has ended, by shutdown or by failure, it stays as it is and
/// repeats its last word.
pub proof fn law_end_is_final(state: State, response: ResponseView)
    requires
        state is Finished || state is Failed,
    ensures
        step_spec(state, response).0 == state,
        state.awaits(step_spec(state, response).1),
{
}

/// After the walker has ended, every request of the run is its last word:
/// `Finish` after a shutdown, `Abort` after a failure.
pub proof fn lemma_ended_stays(world: World, responses: Seq<ResponseView>, n: int, k: int)
    requires
        0 <= n <= k <= responses.len(),
        replay(world, responses.take(n)).state is Finished || replay(
            world,
            responses.take(n),
        ).state is Failed,
    ensures
        replay(world, responses.take(k)).state == replay(world, responses.take(n)).state,
        replay(world, responses).trace[k] == replay(world, responses).trace[n],
    decreases k - n,
{
    lemma_replay_prefix(world, responses, k);
    lemma_replay_prefix(world, responses, n);
    if k > n {
        lemma_ended_stays(world, responses, n, k - 1);
        lemma_replay_prefix(world, responses, k - 1);
        lemma_replay_shape(world, responses.take(k - 1));
        lemma_replay_shape(world, responses.take(n));
        assert(responses.take(k).drop_last() == responses.take(k - 1));
    }
}

/// Shutdown is graceful: once the walker has read the shutdown flag as set, it
/// asks for nothing more. No block is fetched, no code is fetched and no
/// checkpoint is written after that moment.
pub proof fn law_shutdown_ends_scan(world: World, responses: Seq<ResponseView>, n: int, k: int)
    requires
        0 <= n < k <= responses.len(),
        replay(world, responses.take(n)).state is AwaitShutdown,
        responses[n] == (ResponseView::Shutdown { requested: true }),
    ensures
        replay(world, responses).trace[k] == RequestView::Finish,
        replay(world, responses.take(k)).state == State::Finished,
        replay(world, responses.take(k)).world.ledger == replay(
            world,
            responses.take(n),
        ).world.ledger,
{
    assert(responses.take(n + 1).drop_last() == responses.take(n));
    assert(responses.take(n + 1).last() == responses[n]);
    lemma_replay_prefix(world, responses, n + 1);
    lemma_ended_stays(world, responses, n + 1, k);
    lemma_replay_shape(world, responses.take(n));
    lemma_ledger_rests(world, responses, n, k);
}

/// Failure is fatal: once a request has failed, the walker asks for nothing
/// more and gives the error of that request as its last word. No checkpoint
/// is written after that moment, so the block at work stays unmarked.
pub proof fn law_failure_ends_scan(world: World, responses: Seq<ResponseView>, n: int, k: int)
    requires
        0 <= n < k <= responses.len(),
        responses[n] is Failed,
        !(replay(world, responses.take(n)).state is Finished),
    ensures
        replay(world, responses).trace[k] == (RequestView::Abort {
            error: replay(world, responses.take(n)).state.failure(),
        }),
        replay(world, responses.take(k)).state == (State::Failed {
            error: replay(world, responses.take(n)).state.failure(),
        }),
        replay(world, responses.take(k)).world.ledger == replay(
            world,
            responses.take(n),
        ).world.ledger,
{
    assert(responses.take(n + 1).drop_last() == responses.take(n));
    assert(responses.take(n + 1).last() == responses[n]);
    lemma_replay_prefix(world, responses, n + 1);
    lemma_ended_stays(world, responses, n + 1, k);
    lemma_ledger_rests(world, responses, n, k);
}

/// Whether the first `n` callees of the visit are marked in `world`.
pub open spec fn marked_upto(visit: Visit, world: World, n: int) -> bool {
    forall|i: int| 0 <= i < n ==> world.ledger.addresses.contains(#[trigger] visit.callees[i])
}

/// How far the checkpoint store has come with the callees of the block at
/// work: every callee that the walker has passed is marked.
pub open spec fn callees_marked(state: State, world: World) -> bool {
    match state {
        State::AwaitAddressCheck { visit }
        | State::AwaitCode { visit }
        | State::AwaitAddressMark { visit, .. } => marked_upto(visit, world, visit.next as int),
        State::AwaitEnqueue { visit } => marked_upto(visit, world, visit.next as int + 1),
        State::AwaitBlockMark { visit } => marked_upto(visit, world, visit.callees.len() as int),
        _ => true,
    }
}

proof fn lemma_callees_marked_step(
    state: State,
    world: World,
    request: RequestView,
    response: ResponseView,
)
    requires
        state.wf(),
        state.awaits(request),
        honest(world, request, response),
        callees_marked(state, world),
    ensures
        callees_marked(step_spec(state, response).0, settle(world, request, response)),
{
    let next = step_spec(state, response).0;
    let after = settle(world, request, response);
    assert(world.ledger.addresses.subset_of(after.ledger.addresses));
    match state {
        State::AwaitAddressCheck { visit } => {
            assert(marked_upto(visit, after, visit.next as int));
            if response == (ResponseView::Marked { present: true }) {
                assert(marked_upto(visit.advanced(), after, visit.next as int + 1)) by {
                    assert forall|i: int| 0 <= i < visit.next + 1 implies after.ledger.addresses.contains(
                        #[trigger] visit.advanced().callees[i],
                    ) by {
                        if i < visit.next {
                            assert(world.ledger.addresses.contains(visit.callees[i]));
                        }
                    }
                }
            }
        },
        State::AwaitCode { visit } => {
            assert(marked_upto(visit, after, visit.next as int));
        },
        State::AwaitAddressMark { visit, .. } => {
            if response is Done {
                assert forall|i: int| 0 <= i < visit.next + 1 implies after.ledger.addresses.contains(
                    #[trigger] visit.callees[i],
                ) by {
                    if i < visit.next {
                        assert(world.ledger.addresses.contains(visit.callees[i]));
                    }
                }
            }
        },
        State::AwaitEnqueue { visit } => {
            if response is Done {
                assert forall|i: int| 0 <= i < visit.next + 1 implies after.ledger.addresses.contains(
                    #[trigger] visit.advanced().callees[i],
                ) by {
                    assert(world.ledger.addresses.contains(visit.callees[i]));
                }
            }
        },
        _ => {},
    }
}

proof fn lemma_callees_marked(world: World, responses: Seq<ResponseView>)
    requires
        honest_answers(world, responses),
    ensures
        callees_marked(replay(world, responses).state, replay(world, responses).world),
    decreases responses.len(),
{
    if responses.len() > 0 {
        let before = replay(world, responses.drop_last());
        lemma_callees_marked(world, responses.drop_last());
        lemma_replay_shape(world, responses.drop_last());
        lemma_callees_marked_step(before.state, before.world, before.trace.last(), responses.last());
    }
}

/// Address checkpoints come before the block checkpoint: when the walker asks
/// for the checkpoint of a block to be written, every callee of that block is
/// already marked.
pub proof fn law_addresses_before_block(world: World, responses: Seq<ResponseView>, k: int)
    requires
        honest_answers(world, responses),
        0 <= k <= responses.len(),
        replay(world, responses).trace[k] is MarkBlock,
    ensures
        replay(world, responses.take(k)).state matches State::AwaitBlockMark { visit } && {
            &&& visit.height == replay(world, responses).trace[k]->MarkBlock_height
            &&& forall|i: int|
                0 <= i < visit.callees.len() ==> replay(
                    world,
                    responses.take(k),
                ).world.ledger.addresses.contains(#[trigger] visit.callees[i])
        },
{
    lemma_replay_prefix(world, responses, k);
    lemma_honest_prefix(world, responses, k);
    lemma_replay_shape(world, responses.take(k));
    lemma_callees_marked(world, responses.take(k));
}

/// The index of the last block fetch in `trace`, and -1 where there is none.
pub open spec fn last_fetch(trace: Seq<RequestView>) -> int
    decreases trace.len(),
{
    if trace.len() == 0 {
        -1
    } else if trace.last() is FetchBlock {
        trace.len() - 1
    } else {
        last_fetch(trace.drop_last())
    }
}

/// The visit under way, where the walker is at work on the callees of a
/// block.
pub open spec fn visit_of(state: State) -> Option<Visit> {
    match state {
        State::AwaitAddressCheck { visit }
        | State::AwaitCode { visit }
        | State::AwaitAddressMark { visit, .. }
        | State::AwaitEnqueue { visit }
        | State::AwaitBlockMark { visit } => Some(visit),
        _ => None,
    }
}

/// Whether the visit is the visit of the block that the answer at index `j`
/// brought for the fetch at index `j` of the trace.
pub open spec fn visit_from(
    visit: Visit,
    trace: Seq<RequestView>,
    responses: Seq<ResponseView>,
    j: int,
) -> bool {
    &&& 0 <= j < responses.len()
    &&& j < trace.len()
    &&& trace[j] == (RequestView::FetchBlock { height: visit.height })
    &&& responses[j] matches ResponseView::Block { recipients }
    &&& visit.callees == callee_addresses(recipients)
}

proof fn lemma_visit_from(world: World, responses: Seq<ResponseView>)
    ensures
        visit_of(replay(world, responses).state) matches Some(visit) ==> visit_from(
            visit,
            replay(world, responses).trace,
            responses,
            last_fetch(replay(world, responses).trace),
        ),
    decreases responses.len(),
{
    if responses.len() > 0 {
        let before = replay(world, responses.drop_last());
        let run = replay(world, responses);
        lemma_visit_from(world, responses.drop_last());
        lemma_replay_shape(world, responses.drop_last());
        assert(run.trace.drop_last() == before.trace);
        if visit_of(run.state) is Some {
            if before.state is AwaitBlock {
                assert(last_fetch(before.trace) == before.trace.len() - 1);
            } else {
                assert(visit_of(before.state) is Some);
            }
        }
    }
}

/// A block is marked complete only when every address found in it is
/// marked: the checkpoint of a block is asked for on behalf of the block
/// fetched last, at the height of that block, and by then every callee of
/// that block has its checkpoint.
pub proof fn law_block_mark_covers_block(world: World, responses: Seq<ResponseView>, k: int)
    requires
        honest_answers(world, responses),
        0 <= k <= responses.len(),
        replay(world, responses).trace[k] is MarkBlock,
    ensures
        ({
            let trace = replay(world, responses).trace;
            let j = last_fetch(trace.take(k + 1));
            &&& 0 <= j < k
            &&& trace[j] == (RequestView::FetchBlock { height: trace[k]->MarkBlock_height })
            &&& responses[j] matches ResponseView::Block { recipients }
            &&& forall|i: int|
                0 <= i < callee_addresses(recipients).len() ==> replay(
                    world,
                    responses.take(k),
                ).world.ledger.addresses.contains(#[trigger] callee_addresses(recipients)[i])
        }),
{
    let answers = responses.take(k);
    lemma_replay_prefix(world, responses, k);
    lemma_replay_shape(world, answers);
    lemma_replay_shape(world, responses);
    law_addresses_before_block(world, responses, k);
    lemma_visit_from(world, answers);
    let j = last_fetch(replay(world, answers).trace);
    assert(replay(world, responses).trace[j] == replay(world, answers).trace[j]) by {
        assert(replay(world, responses).trace.take(k + 1)[j] == replay(world, answers).trace[j]);
    }
    assert(answers[j] == responses[j]);
}

/// The checkpoint comes before the hand-over: code goes to the saver only
/// right after it was fetched and the checkpoint of its address was written,
/// and it is the code that was fetched.
pub proof fn law_enqueue_follows_mark(world: World, responses: Seq<ResponseView>, k: int)
    requires
        0 <= k <= responses.len(),
        replay(world, responses).trace[k] is Enqueue,
    ensures
        k >= 2,
        replay(world, responses).trace[k - 2] is FetchCode,
        replay(world, responses).trace[k - 1] == (RequestView::MarkAddress {
            address: replay(world, responses).trace[k - 2]->FetchCode_address,
        }),
        responses[k - 2] == (ResponseView::Code {
            code: replay(world, responses).trace[k]->Enqueue_code,
        }),
        responses[k - 1] == ResponseView::Done,
{
    lemma_replay_prefix(world, responses, k);
    let last = responses.take(k);
    assert(k >= 1);
    lemma_replay_prefix(world, responses, k - 1);
    let middle = responses.take(k - 1);
    assert(last.drop_last() == middle);
    assert(last.last() == responses[k - 1]);
    lemma_replay_shape(world, middle);
    assert(replay(world, middle).state is AwaitAddressMark);
    assert(k >= 2);
    lemma_replay_prefix(world, responses, k - 2);
    let first = responses.take(k - 2);
    assert(middle.drop_last() == first);
    assert(middle.last() == responses[k - 2]);
    lemma_replay_shape(world, first);
}

/// From a moment at which the next answer ends the walker, or it has ended
/// already, the checkpoint store stays as it is.
proof fn lemma_ledger_rests(world: World, responses: Seq<ResponseView>, n: int, k: int)
    requires
        0 <= n <= k <= responses.len(),
        n < responses.len() ==> step_spec(replay(world, responses.take(n)).state, responses[n]).0
            is Finished || step_spec(replay(world, responses.take(n)).state, responses[n]).0
            is Failed,
        n < responses.len() ==> settle(
            replay(world, responses.take(n)).world,
            replay(world, responses.take(n)).trace.last(),
            responses[n],
        ).ledger == replay(world, responses.take(n)).world.ledger,
    ensures
        replay(world, responses.take(k)).world.ledger == replay(
            world,
            responses.take(n),
        ).world.ledger,
    decreases k - n,
{
    if k > n {
        lemma_ledger_rests(world, responses, n, k - 1);
        assert(responses.take(k).drop_last() == responses.take(k - 1));
        assert(responses.take(n + 1).drop_last() == responses.take(n));
        assert(responses.take(n + 1).last() == responses[n]);
        lemma_replay_shape(world, responses.take(k - 1));
        if k - 1 > n {
            lemma_ended_stays(world, responses, n + 1, k - 1);
        }
    }
}

/// A block fetch begins only right after the shutdown flag was read as unset
/// and the block was found without a checkpoint: between two readings of the
/// flag the walker takes up at most one block.
pub proof fn law_fetch_follows_clear_poll(world: World, responses: Seq<ResponseView>, k: int)
    requires
        0 <= k <= responses.len(),
        replay(world, responses).trace[k] is FetchBlock,
    ensures
        k >= 2,
        replay(world, responses).trace[k - 2] == RequestView::PollShutdown,
        responses[k - 2] == (ResponseView::Shutdown { requested: false }),
        replay(world, responses).trace[k - 1] == (RequestView::IsBlockMarked {
            height: replay(world, responses).trace[k]->FetchBlock_height,
        }),
        responses[k - 1] == (ResponseView::Marked { present: false }),
{
    lemma_replay_prefix(world, responses, k);
    let last = responses.take(k);
    assert(k >= 1);
    lemma_replay_prefix(world, responses, k - 1);
    let middle = responses.take(k - 1);
    assert(last.drop_last() == middle);
    assert(last.last() == responses[k - 1]);
    lemma_replay_shape(world, middle);
    assert(replay(world, middle).state is AwaitBlockCheck);
    assert(k >= 2);
    lemma_replay_prefix(world, responses, k - 2);
    let first = responses.take(k - 2);
    assert(middle.drop_last() == first);
    assert(middle.last() == responses[k - 2]);
    lemma_replay_shape(world, first);
}

/// Checkpoints are never taken back in the course of a run: what is marked
/// after `n` answers is marked after any greater number of them.
pub proof fn law_ledger_grows_between(world: World, responses: Seq<ResponseView>, n: int, k: int)
    requires
        0 <= n <= k <= responses.len(),
    ensures
        replay(world, responses.take(n)).world.ledger.within(
            replay(world, responses.take(k)).world.ledger,
        ),
    decreases k - n,
{
    if k > n {
        law_ledger_grows_between(world, responses, n, k - 1);
        assert(responses.take(k).drop_last() == responses.take(k - 1));
    }
}

/// In one run the code of an address is fetched at most once, however often
/// the address is called.
pub proof fn law_code_fetched_once(world: World, responses: Seq<ResponseView>, i: int, j: int)
    requires
        honest_answers(world, responses),
        0 <= i < j <= responses.len(),
        replay(world, responses).trace[i] is FetchCode,
        replay(world, responses).trace[j] is FetchCode,
    ensures
        replay(world, responses).trace[i]->FetchCode_address != replay(
            world,
            responses,
        ).trace[j]->FetchCode_address,
{
    let trace = replay(world, responses).trace;
    let address = trace[i]->FetchCode_address;
    lemma_replay_prefix(world, responses, i);
    lemma_replay_prefix(world, responses, i + 1);
    lemma_replay_shape(world, responses.take(i));
    lemma_honest_prefix(world, responses, i + 1);
    assert(responses.take(i + 1).drop_last() == responses.take(i));
    assert(responses.take(i + 1).last() == responses[i]);
    let fetched = replay(world, responses.take(i + 1));
    if fetched.state is Failed {
        lemma_ended_stays(world, responses, i + 1, j);
    } else {
        assert(trace[i + 1] == (RequestView::MarkAddress { address }));
        assert(j >= i + 2);
        lemma_replay_prefix(world, responses, i + 2);
        lemma_replay_shape(world, responses.take(i + 1));
        lemma_honest_prefix(world, responses, i + 2);
        assert(responses.take(i + 2).drop_last() == responses.take(i + 1));
        assert(responses.take(i + 2).last() == responses[i + 1]);
        let marked = replay(world, responses.take(i + 2));
        if marked.state is Failed {
            lemma_ended_stays(world, responses, i + 2, j);
        } else {
            assert(marked.world.ledger.addresses.contains(address));
            law_ledger_grows_between(world, responses, i + 2, j);
            law_checkpointed_never_fetched(world, responses, j);
        }
    }
}

} // verus!
