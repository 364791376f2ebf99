use vstd::prelude::*;
use crate::address::Address;
use crate::protocol::{RequestView, ResponseView};
use crate::scan::{start_spec, step_spec, State};

verus! {

/// What the checkpoint store holds: the blocks that are fully scanned and the
/// addresses whose code has been fetched.
pub struct Ledger {
    pub blocks: Set<u64>,
    pub addresses: Set<Address>,
}

/// What lies outside the walker and is changed by its requests: the
/// checkpoint store and the queue to the saver, oldest item first.
pub struct World {
    pub ledger: Ledger,
    pub queue: Seq<Seq<u8>>,
}

impl Ledger {
    pub open spec fn empty() -> Ledger {
        Ledger { blocks: Set::empty(), addresses: Set::empty() }
    }

    /// Everything marked in `self` is marked in `later`.
    pub open spec fn within(self, later: Ledger) -> bool {
        self.blocks.subset_of(later.blocks) && self.addresses.subset_of(later.addresses)
    }
}

/// The world after `request` has been carried out.
pub open spec fn perform(world: World, request: RequestView) -> World {
    match request {
        RequestView::MarkBlock { height } => World {
            ledger: Ledger { blocks: world.ledger.blocks.insert(height), ..world.ledger },
            ..world
        },
        RequestView::MarkAddress { address } => World {
            ledger: Ledger { addresses: world.ledger.addresses.insert(address), ..world.ledger },
            ..world
        },
        RequestView::Enqueue { code } => World { queue: world.queue.push(code), ..world },
        _ => world,
    }
}

/// The world after `request` was answered by `response`: a request that failed
/// has changed nothing.
pub open spec fn settle(world: World, request: RequestView, response: ResponseView) -> World {
    if response is Failed {
        world
    } else {
        perform(world, request)
    }
}

/// Whether `response` is an answer that `request` can get in `world`. The
/// chain may answer anything of the right kind; the checkpoint store answers
/// what it holds; any request but the reading of the shutdown flag may fail.
pub open spec fn honest(world: World, request: RequestView, response: ResponseView) -> bool {
    match request {
        RequestView::QueryHead => response is Head || response is Failed,
        RequestView::PollShutdown => response is Shutdown,
        RequestView::IsBlockMarked { height } => response is Failed || response == (
        ResponseView::Marked { present: world.ledger.blocks.contains(height) }),
        RequestView::IsAddressMarked { address } => response is Failed || response == (
        ResponseView::Marked { present: world.ledger.addresses.contains(address) }),
        RequestView::FetchBlock { .. } => response is Block || response is NoBlock
            || response is Failed,
        RequestView::FetchCode { .. } => response is Code || response is Failed,
        RequestView::MarkAddress { .. } | RequestView::Enqueue { .. } | RequestView::MarkBlock {
            ..
        } => response is Done || response is Failed,
        RequestView::Finish | RequestView::Abort { .. } => true,
    }
}

/// A scan under way: where the walker stands, the world as it is, and every
/// request made so far, the outstanding one last.
pub struct Run {
    pub state: State,
    pub world: World,
    pub trace: Seq<RequestView>,
}

/// The start of a scan in `world`.
pub open spec fn begin(world: World) -> Run {
    Run { state: start_spec().0, world, trace: seq![start_spec().1] }
}

/// The run after the outstanding request was answered by `response`.
pub open spec fn advance(run: Run, response: ResponseView) -> Run {
    let next = step_spec(run.state, response);
    Run {
        state: next.0,
        world: settle(run.world, run.trace.last(), response),
        trace: run.trace.push(next.1),
    }
}

/// The run that starts in `world` and gets `responses` as its answers, in
/// order.
pub open spec fn replay(world: World, responses: Seq<ResponseView>) -> Run
    decreases responses.len(),
{
    if responses.len() == 0 {
        begin(world)
    } else {
        advance(replay(world, responses.drop_last()), responses.last())
    }
}

/// Whether each of `responses` is an honest answer to the request that was
/// outstanding when it came.
pub open spec fn honest_answers(world: World, responses: Seq<ResponseView>) -> bool
    decreases responses.len(),
{
    responses.len() > 0 ==> {
        let before = replay(world, responses.drop_last());
        honest_answers(world, responses.drop_last()) && honest(
            before.world,
            before.trace.last(),
            responses.last(),
        )
    }
}

/// Marking is idempotent: a checkpoint written twice is written once.
pub proof fn law_mark_is_idempotent(world: World, request: RequestView)
    requires
        request is MarkBlock || request is MarkAddress,
    ensures
        perform(perform(world, request), request) == perform(world, request),
        world.ledger.within(perform(world, request).ledger),
{
    let once = perform(world, request);
    let twice = perform(once, request);
    assert(twice.ledger.blocks =~= once.ledger.blocks);
    assert(twice.ledger.addresses =~= once.ledger.addresses);
}

} // verus!
