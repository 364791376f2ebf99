use vstd::prelude::*;
use crate::address::Address;
use crate::protocol::{callee_addresses, RequestView, ResponseView, ScanError};

verus! {

/// The walk through the callees of one fetched block: `next` is the first
/// callee not yet dealt with.
pub struct Visit {
    pub height: u64,
    pub callees: Seq<Address>,
    pub next: nat,
}

/// Where the walker stands: which answer it waits for, and for what.
pub enum State {
    /// Waits for the chain head.
    AwaitHead,
    /// At the top of the work on `height`: waits for the shutdown flag.
    AwaitShutdown { height: u64 },
    /// Waits to learn whether the block is already checkpointed.
    AwaitBlockCheck { height: u64 },
    /// Waits for the block.
    AwaitBlock { height: u64 },
    /// Waits to learn whether the callee `visit.next` is already checkpointed.
    AwaitAddressCheck { visit: Visit },
    /// Waits for the code of the callee `visit.next`.
    AwaitCode { visit: Visit },
    /// Holds the code and waits for the address checkpoint to be written.
    AwaitAddressMark { visit: Visit, code: Seq<u8> },
    /// Waits for the code to be handed to the saver.
    AwaitEnqueue { visit: Visit },
    /// All callees are dealt with: waits for the block checkpoint to be
    /// written.
    AwaitBlockMark { visit: Visit },
    /// Shutdown was requested; nothing more is asked for.
    Finished,
    /// The scan failed; nothing more is asked for.
    Failed { error: ScanError },
}

impl Visit {
    pub open spec fn current(self) -> Address {
        self.callees[self.next as int]
    }

    pub open spec fn advanced(self) -> Visit {
        Visit { next: self.next + 1, ..self }
    }
}

impl State {
    /// Heights at work are above genesis, and a callee that is being worked on
    /// exists.
    pub open spec fn wf(self) -> bool {
        match self {
            State::AwaitHead | State::Finished | State::Failed { .. } => true,
            State::AwaitShutdown { height }
            | State::AwaitBlockCheck { height }
            | State::AwaitBlock { height } => height > 0,
            State::AwaitAddressCheck { visit }
            | State::AwaitCode { visit }
            | State::AwaitAddressMark { visit, .. }
            | State::AwaitEnqueue { visit } => visit.height > 0 && visit.next < visit.callees.len(),
            State::AwaitBlockMark { visit } => visit.height > 0 && visit.next == visit.callees.len(),
        }
    }

    /// Whether `request` is what the walker in this state waits on.
    pub open spec fn awaits(self, request: RequestView) -> bool {
        match self {
            State::AwaitHead => request == RequestView::QueryHead,
            State::AwaitShutdown { .. } => request == RequestView::PollShutdown,
            State::AwaitBlockCheck { height } => request == (RequestView::IsBlockMarked { height }),
            State::AwaitBlock { height } => request == (RequestView::FetchBlock { height }),
            State::AwaitAddressCheck { visit } => request == (RequestView::IsAddressMarked {
                address: visit.current(),
            }),
            State::AwaitCode { visit } => request == (RequestView::FetchCode {
                address: visit.current(),
                height: visit.height,
            }),
            State::AwaitAddressMark { visit, .. } => request == (RequestView::MarkAddress {
                address: visit.current(),
            }),
            State::AwaitEnqueue { .. } => request is Enqueue,
            State::AwaitBlockMark { visit } => request == (RequestView::MarkBlock {
                height: visit.height,
            }),
            State::Finished => request == RequestView::Finish,
            State::Failed { error } => request == (RequestView::Abort { error }),
        }
    }

    /// The error that a failure of the awaited request stands for.
    pub open spec fn failure(self) -> ScanError {
        match self {
            State::AwaitHead => ScanError::HeadQuery,
            State::AwaitBlockCheck { .. } | State::AwaitAddressCheck { .. } =>
                ScanError::CheckpointRead,
            State::AwaitBlock { .. } => ScanError::BlockFetch,
            State::AwaitCode { .. } => ScanError::CodeFetch,
            State::AwaitAddressMark { .. } => ScanError::AddressMark,
            State::AwaitEnqueue { .. } => ScanError::Enqueue,
            State::AwaitBlockMark { .. } => ScanError::BlockMark,
            State::AwaitShutdown { .. } | State::Finished => ScanError::Protocol,
            State::Failed { error } => error,
        }
    }
}

/// The walker turns to `height`: above genesis it first reads the shutdown
/// flag; at genesis the pass is over and it asks for the chain head anew.
pub open spec fn turn_to(height: u64) -> (State, RequestView) {
    if height > 0 {
        (State::AwaitShutdown { height }, RequestView::PollShutdown)
    } else {
        (State::AwaitHead, RequestView::QueryHead)
    }
}

/// The walker turns to callee `visit.next`: it asks whether the address is
/// checkpointed, or, when no callee is left, has the block checkpoint written.
pub open spec fn attend(visit: Visit) -> (State, RequestView) {
    if visit.next < visit.callees.len() {
        (State::AwaitAddressCheck { visit }, RequestView::IsAddressMarked { address: visit.current() })
    } else {
        (State::AwaitBlockMark { visit }, RequestView::MarkBlock { height: visit.height })
    }
}

/// The walker gives up with `error`.
pub open spec fn fail(error: ScanError) -> (State, RequestView) {
    (State::Failed { error }, RequestView::Abort { error })
}

/// One decision of the walker: from where it stands and the answer to its
/// outstanding request to where it stands next and what it asks for.
pub open spec fn step_spec(state: State, response: ResponseView) -> (State, RequestView) {
    match state {
        State::Finished => (State::Finished, RequestView::Finish),
        State::Failed { error } => fail(error),
        _ => match response {
            ResponseView::Failed => fail(state.failure()),
            _ => match (state, response) {
                (State::AwaitHead, ResponseView::Head { height }) => turn_to(height),
                (State::AwaitShutdown { height }, ResponseView::Shutdown { requested }) => {
                    if requested {
                        (State::Finished, RequestView::Finish)
                    } else {
                        (State::AwaitBlockCheck { height }, RequestView::IsBlockMarked { height })
                    }
                },
                (State::AwaitBlockCheck { height }, ResponseView::Marked { present }) => {
                    if present {
                        turn_to((height - 1) as u64)
                    } else {
                        (State::AwaitBlock { height }, RequestView::FetchBlock { height })
                    }
                },
                (State::AwaitBlock { height }, ResponseView::Block { recipients }) => attend(
                    Visit { height, callees: callee_addresses(recipients), next: 0 },
                ),
                (State::AwaitBlock { .. }, ResponseView::NoBlock) => fail(ScanError::EmptyBlock),
                (State::AwaitAddressCheck { visit }, ResponseView::Marked { present }) => {
                    if present {
                        attend(visit.advanced())
                    } else {
                        (
                            State::AwaitCode { visit },
                            RequestView::FetchCode { address: visit.current(), height: visit.height },
                        )
                    }
                },
                (State::AwaitCode { visit }, ResponseView::Code { code }) => (
                    State::AwaitAddressMark { visit, code },
                    RequestView::MarkAddress { address: visit.current() },
                ),
                (State::AwaitAddressMark { visit, code }, ResponseView::Done) => (
                    State::AwaitEnqueue { visit },
                    RequestView::Enqueue { code },
                ),
                (State::AwaitEnqueue { visit }, ResponseView::Done) => attend(visit.advanced()),
                (State::AwaitBlockMark { visit }, ResponseView::Done) => turn_to(
                    (visit.height - 1) as u64,
                ),
                _ => fail(ScanError::Protocol),
            },
        },
    }
}

/// Whether the step from `state` on `response` completes the work on a block.
pub open spec fn completes_block(state: State, response: ResponseView) -> bool {
    state is AwaitBlockMark && response is Done
}

/// The scan starts by asking for the chain head.
pub open spec fn start_spec() -> (State, RequestView) {
    (State::AwaitHead, RequestView::QueryHead)
}

/// Every step leaves the walker in a well-formed state, waiting on the very
/// request that the step gave out.
pub proof fn law_step_keeps_form(state: State, response: ResponseView)
    requires
        state.wf(),
    ensures
        step_spec(state, response).0.wf(),
        step_spec(state, response).0.awaits(step_spec(state, response).1),
{
}

} // verus!
