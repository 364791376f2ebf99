use vstd::prelude::*;
use crate::digest::{content_hash, ContentHash};
use crate::progress::{Progress, REPORT_INTERVAL_SECS};
use crate::save::{
    accept_spec, completes_insert, save_start_spec, save_step_spec, SaveError, SaveRequest,
    SaveResponse, SaveState,
};

verus! {

enum Phase {
    AwaitItem,
    AwaitUpdate { hash: ContentHash, code: Vec<u8> },
    AwaitInsert,
    Finished,
    Failed { error: SaveError },
}

impl View for Phase {
    type V = SaveState;

    closed spec fn view(&self) -> SaveState {
        match *self {
            Phase::AwaitItem => SaveState::AwaitItem,
            Phase::AwaitUpdate { hash, code } => SaveState::AwaitUpdate { hash: hash@, code: code@ },
            Phase::AwaitInsert => SaveState::AwaitInsert,
            Phase::Finished => SaveState::Finished,
            Phase::Failed { error } => SaveState::Failed { error },
        }
    }
}

/// The saver: takes bytecode from the queue in arrival order and stores each
/// unique bytecode once, counting how often it came.
pub struct Saver {
    phase: Phase,
    progress: Progress,
}

impl View for Saver {
    type V = SaveState;

    closed spec fn view(&self) -> SaveState {
        self.phase@
    }
}

/// The hash as the contracts speak of it: its bytes, where there is one.
pub open spec fn hash_view(hash: Option<ContentHash>) -> Option<Seq<u8>> {
    match hash {
        Some(hash) => Some(hash@),
        None => None,
    }
}

impl Saver {
    /// Bytecodes newly stored since the last progress report.
    pub closed spec fn stored(&self) -> nat {
        self.progress.pending()
    }

    /// A saver at the start of its work, with its first request.
    pub fn new() -> (out: (Saver, SaveRequest))
        ensures
            (out.0@, out.1@) == save_start_spec(),
            out.0.stored() == 0,
    {
        (Saver { phase: Phase::AwaitItem, progress: Progress::new() }, SaveRequest::Receive)
    }

    /// Whether the saver has ended, by the closing of the queue or by failure.
    pub fn is_over(&self) -> (over: bool)
        ensures
            over == (self@ is Finished || self@ is Failed),
    {
        match self.phase {
            Phase::Finished => true,
            Phase::Failed { .. } => true,
            _ => false,
        }
    }

    /// The error that ended the saver, if one did.
    pub fn error(&self) -> (error: Option<SaveError>)
        ensures
            error == (match self@ {
                SaveState::Failed { error } => Some(error),
                _ => None,
            }),
    {
        match self.phase {
            Phase::Failed { error } => Some(error),
            _ => None,
        }
    }

    /// The count of newly stored bytecodes to report once a report interval
    /// has passed since the last report; the count then starts anew.
    pub fn report(&mut self, elapsed_secs: u64) -> (due: Option<usize>)
        ensures
            final(self)@ == old(self)@,
            elapsed_secs >= REPORT_INTERVAL_SECS ==> due == Some(old(self).stored() as usize)
                && final(self).stored() == 0,
            elapsed_secs < REPORT_INTERVAL_SECS ==> due is None && final(self).stored() == old(
                self,
            ).stored(),
    {
        self.progress.report(elapsed_secs)
    }

    fn fail(error: SaveError, progress: Progress) -> (out: (Saver, SaveRequest))
        ensures
            (out.0@, out.1@) == crate::save::save_fail(error),
            out.0.progress == progress,
    {
        (Saver { phase: Phase::Failed { error }, progress }, SaveRequest::Abort { error })
    }

    /// Takes up an item of the queue, given its content hash: the saver tries
    /// the increment first, so that bytecode already stored costs one write
    /// and no second copy. Code without a hash ends the saver.
    pub fn accept(self, code: Vec<u8>, hash: Option<ContentHash>) -> (out: (Saver, SaveRequest))
        ensures
            (out.0@, out.1@) == accept_spec(self@, code@, hash_view(hash)),
            out.0.stored() == self.stored(),
    {
        let Saver { phase, progress } = self;
        match phase {
            Phase::Finished => (Saver { phase: Phase::Finished, progress }, SaveRequest::Finish),
            Phase::Failed { error } => Self::fail(error, progress),
            Phase::AwaitItem => match hash {
                Some(hash) => (
                    Saver { phase: Phase::AwaitUpdate { hash, code }, progress },
                    SaveRequest::Increment { hash },
                ),
                None => Self::fail(SaveError::Malformed, progress),
            },
            _ => Self::fail(SaveError::Protocol, progress),
        }
    }

    /// Takes the answer to the outstanding request and decides what to ask
    /// for next.
    pub fn step(self, response: SaveResponse) -> (out: (Saver, SaveRequest))
        ensures
            (out.0@, out.1@) == save_step_spec(self@, response@),
            out.0.stored() == if completes_insert(self@, response@) && self.stored() < usize::MAX {
                self.stored() + 1
            } else {
                self.stored()
            },
    {
        if let SaveResponse::Item { code } = response {
            let hash = content_hash(&code);
            return self.accept(code, hash);
        }
        let Saver { phase, progress } = self;
        let mut progress = progress;
        match phase {
            Phase::Finished => (Saver { phase: Phase::Finished, progress }, SaveRequest::Finish),
            Phase::Failed { error } => Self::fail(error, progress),
            Phase::AwaitItem => match response {
                SaveResponse::Closed => (
                    Saver { phase: Phase::Finished, progress },
                    SaveRequest::Finish,
                ),
                _ => Self::fail(SaveError::Protocol, progress),
            },
            Phase::AwaitUpdate { hash, code } => match response {
                SaveResponse::Updated { rows } => {
                    if rows != 0 {
                        (Saver { phase: Phase::AwaitItem, progress }, SaveRequest::Receive)
                    } else {
                        (
                            Saver { phase: Phase::AwaitInsert, progress },
                            SaveRequest::Insert { hash, code },
                        )
                    }
                },
                SaveResponse::Failed => Self::fail(SaveError::Update, progress),
                _ => Self::fail(SaveError::Protocol, progress),
            },
            Phase::AwaitInsert => match response {
                SaveResponse::Done => {
                    progress.record();
                    (Saver { phase: Phase::AwaitItem, progress }, SaveRequest::Receive)
                },
                SaveResponse::Failed => Self::fail(SaveError::Insert, progress),
                _ => Self::fail(SaveError::Protocol, progress),
            },
        }
    }
}

} // verus!
