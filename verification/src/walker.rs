use vstd::prelude::*;
use crate::address::Address;
use crate::progress::{Progress, REPORT_INTERVAL_SECS};
use crate::protocol::{Request, Response, ScanError};
use crate::scan::{attend, completes_block, fail, start_spec, step_spec, turn_to, State, Visit};

verus! {

/// The callees of the block at work and how far the walker has come in them.
struct Visiting {
    height: u64,
    callees: Vec<Address>,
    next: usize,
}

impl View for Visiting {
    type V = Visit;

    closed spec fn view(&self) -> Visit {
        Visit { height: self.height, callees: self.callees@, next: self.next as nat }
    }
}

enum Phase {
    AwaitHead,
    AwaitShutdown { height: u64 },
    AwaitBlockCheck { height: u64 },
    AwaitBlock { height: u64 },
    AwaitAddressCheck { visit: Visiting },
    AwaitCode { visit: Visiting },
    AwaitAddressMark { visit: Visiting, code: Vec<u8> },
    AwaitEnqueue { visit: Visiting },
    AwaitBlockMark { visit: Visiting },
    Finished,
    Failed { error: ScanError },
}

impl View for Phase {
    type V = State;

    closed spec fn view(&self) -> State {
        match *self {
            Phase::AwaitHead => State::AwaitHead,
            Phase::AwaitShutdown { height } => State::AwaitShutdown { height },
            Phase::AwaitBlockCheck { height } => State::AwaitBlockCheck { height },
            Phase::AwaitBlock { height } => State::AwaitBlock { height },
            Phase::AwaitAddressCheck { visit } => State::AwaitAddressCheck { visit: visit@ },
            Phase::AwaitCode { visit } => State::AwaitCode { visit: visit@ },
            Phase::AwaitAddressMark { visit, code } => State::AwaitAddressMark {
                visit: visit@,
                code: code@,
            },
            Phase::AwaitEnqueue { visit } => State::AwaitEnqueue { visit: visit@ },
            Phase::AwaitBlockMark { visit } => State::AwaitBlockMark { visit: visit@ },
            Phase::Finished => State::Finished,
            Phase::Failed { error } => State::Failed { error },
        }
    }
}

/// The chain walker: walks from the chain head down to the first block,
/// skips what is checkpointed, and hands the code of every callee not seen
/// before to the saver.
pub struct Walker {
    phase: Phase,
    progress: Progress,
}

impl View for Walker {
    type V = State;

    closed spec fn view(&self) -> State {
        self.phase@
    }
}

impl Walker {
    #[verifier::type_invariant]
    spec fn inv(self) -> bool {
        self.phase@.wf()
    }

    /// Blocks worked through since the last progress report.
    pub closed spec fn processed(&self) -> nat {
        self.progress.pending()
    }

    /// A walker at the start of a scan, with its first request.
    pub fn new() -> (out: (Walker, Request))
        ensures
            (out.0@, out.1@) == start_spec(),
            out.0.processed() == 0,
    {
        (Walker { phase: Phase::AwaitHead, progress: Progress::new() }, Request::QueryHead)
    }

    /// Whether the walker has ended, by shutdown or by failure.
    pub fn is_over(&self) -> (over: bool)
        ensures
            over == (self@ is Finished || self@ is Failed),
    {
        match self.phase {
            Phase::Finished => true,
            Phase::Failed { .. } => true,
            _ => false,
        }
    }

    /// The error that ended the scan, if one did.
    pub fn error(&self) -> (error: Option<ScanError>)
        ensures
            error == (match self@ {
                State::Failed { error } => Some(error),
                _ => None,
            }),
    {
        match self.phase {
            Phase::Failed { error } => Some(error),
            _ => None,
        }
    }

    /// The count of blocks to report once a report interval has passed since
    /// the last report; the count then starts anew.
    pub fn report(&mut self, elapsed_secs: u64) -> (due: Option<usize>)
        ensures
            final(self)@ == old(self)@,
            elapsed_secs >= REPORT_INTERVAL_SECS ==> due == Some(old(self).processed() as usize)
                && final(self).processed() == 0,
            elapsed_secs < REPORT_INTERVAL_SECS ==> due is None && final(self).processed() == old(
                self,
            ).processed(),
    {
        proof {
            use_type_invariant(&*self);
        }
        let mut progress = self.progress;
        let due = progress.report(elapsed_secs);
        self.progress = progress;
        due
    }

    fn turn_to(height: u64, progress: Progress) -> (out: (Walker, Request))
        ensures
            (out.0@, out.1@) == turn_to(height),
            out.0.progress == progress,
    {
        if height > 0 {
            (Walker { phase: Phase::AwaitShutdown { height }, progress }, Request::PollShutdown)
        } else {
            (Walker { phase: Phase::AwaitHead, progress }, Request::QueryHead)
        }
    }

    fn attend(visit: Visiting, progress: Progress) -> (out: (Walker, Request))
        requires
            visit.height > 0,
            visit.next <= visit.callees.len(),
        ensures
            (out.0@, out.1@) == attend(visit@),
            out.0.progress == progress,
    {
        if visit.next < visit.callees.len() {
            let address = visit.callees[visit.next];
            (
                Walker { phase: Phase::AwaitAddressCheck { visit }, progress },
                Request::IsAddressMarked { address },
            )
        } else {
            let height = visit.height;
            (Walker { phase: Phase::AwaitBlockMark { visit }, progress }, Request::MarkBlock { height })
        }
    }

    fn fail(error: ScanError, progress: Progress) -> (out: (Walker, Request))
        ensures
            (out.0@, out.1@) == fail(error),
            out.0.progress == progress,
    {
        (Walker { phase: Phase::Failed { error }, progress }, Request::Abort { error })
    }

    /// Takes the answer to the outstanding request and decides what to ask
    /// for next.
    pub fn step(self, response: Response) -> (out: (Walker, Request))
        ensures
            (out.0@, out.1@) == step_spec(self@, response@),
            out.0.processed() == if completes_block(self@, response@) && self.processed()
                < usize::MAX {
                self.processed() + 1
            } else {
                self.processed()
            },
    {
        proof {
            use_type_invariant(&self);
        }
        let Walker { phase, progress } = self;
        let mut progress = progress;
        assert(phase@.wf());
        match phase {
            Phase::Finished => (Walker { phase: Phase::Finished, progress }, Request::Finish),
            Phase::Failed { error } => Self::fail(error, progress),
            Phase::AwaitHead => match response {
                Response::Head { height } => Self::turn_to(height, progress),
                Response::Failed => Self::fail(ScanError::HeadQuery, progress),
                _ => Self::fail(ScanError::Protocol, progress),
            },
            Phase::AwaitShutdown { height } => match response {
                Response::Shutdown { requested } => {
                    if requested {
                        (Walker { phase: Phase::Finished, progress }, Request::Finish)
                    } else {
                        (
                            Walker { phase: Phase::AwaitBlockCheck { height }, progress },
                            Request::IsBlockMarked { height },
                        )
                    }
                },
                _ => Self::fail(ScanError::Protocol, progress),
            },
            Phase::AwaitBlockCheck { height } => match response {
                Response::Marked { present } => {
                    if present {
                        Self::turn_to(height - 1, progress)
                    } else {
                        (
                            Walker { phase: Phase::AwaitBlock { height }, progress },
                            Request::FetchBlock { height },
                        )
                    }
                },
                Response::Failed => Self::fail(ScanError::CheckpointRead, progress),
                _ => Self::fail(ScanError::Protocol, progress),
            },
            Phase::AwaitBlock { height } => match response {
                Response::Block { block } => {
                    let callees = block.callees();
                    Self::attend(Visiting { height, callees, next: 0 }, progress)
                },
                Response::NoBlock => Self::fail(ScanError::EmptyBlock, progress),
                Response::Failed => Self::fail(ScanError::BlockFetch, progress),
                _ => Self::fail(ScanError::Protocol, progress),
            },
            Phase::AwaitAddressCheck { visit } => match response {
                Response::Marked { present } => {
                    if present {
                        let Visiting { height, callees, next } = visit;
                        assert(next < callees.len());
                        Self::attend(Visiting { height, callees, next: next + 1 }, progress)
                    } else {
                        let address = visit.callees[visit.next];
                        let height = visit.height;
                        (
                            Walker { phase: Phase::AwaitCode { visit }, progress },
                            Request::FetchCode { address, height },
                        )
                    }
                },
                Response::Failed => Self::fail(ScanError::CheckpointRead, progress),
                _ => Self::fail(ScanError::Protocol, progress),
            },
            Phase::AwaitCode { visit } => match response {
                Response::Code { code } => {
                    let address = visit.callees[visit.next];
                    (
                        Walker { phase: Phase::AwaitAddressMark { visit, code }, progress },
                        Request::MarkAddress { address },
                    )
                },
                Response::Failed => Self::fail(ScanError::CodeFetch, progress),
                _ => Self::fail(ScanError::Protocol, progress),
            },
            Phase::AwaitAddressMark { visit, code } => match response {
                Response::Done => (
                    Walker { phase: Phase::AwaitEnqueue { visit }, progress },
                    Request::Enqueue { code },
                ),
                Response::Failed => Self::fail(ScanError::AddressMark, progress),
                _ => Self::fail(ScanError::Protocol, progress),
            },
            Phase::AwaitEnqueue { visit } => match response {
                Response::Done => {
                    let Visiting { height, callees, next } = visit;
                    assert(next < callees.len());
                    Self::attend(Visiting { height, callees, next: next + 1 }, progress)
                },
                Response::Failed => Self::fail(ScanError::Enqueue, progress),
                _ => Self::fail(ScanError::Protocol, progress),
            },
            Phase::AwaitBlockMark { visit } => match response {
                Response::Done => {
                    progress.record();
                    Self::turn_to(visit.height - 1, progress)
                },
                Response::Failed => Self::fail(ScanError::BlockMark, progress),
                _ => Self::fail(ScanError::Protocol, progress),
            },
        }
    }
}

} // verus!
