use vstd::prelude::*;
use crate::digest::{is_malformed_delegation, keccak256, ContentHash};

verus! {

/// Why the saver gave up. Every failure is fatal.
#[derive(Clone, Copy, Debug, PartialEq, Eq, Structural)]
pub enum SaveError {
    /// The code is not one the bytecode decoder accepts.
    Malformed,
    /// The counter of a record could not be incremented.
    Update,
    /// A new record could not be inserted.
    Insert,
    /// The answer given does not belong to the request that was outstanding.
    Protocol,
}

impl SaveError {
    pub open spec fn message_spec(self) -> Seq<char> {
        match self {
            SaveError::Malformed => "Expect correct bytecode"@,
            SaveError::Update => "Failed to update bytecode call counter"@,
            SaveError::Insert => "Failed to store bytecode"@,
            SaveError::Protocol => "answer does not match the outstanding request"@,
        }
    }

    /// The context line reported with the error.
    pub fn message(&self) -> (text: &'static str)
        ensures
            text@ == self.message_spec(),
    {
        match self {
            SaveError::Malformed => "Expect correct bytecode",
            SaveError::Update => "Failed to update bytecode call counter",
            SaveError::Insert => "Failed to store bytecode",
            SaveError::Protocol => "answer does not match the outstanding request",
        }
    }
}

/// What the saver asks its surroundings to do next.
#[derive(Debug)]
pub enum SaveRequest {
    /// Take the next item from the queue, waiting for one if need be.
    Receive,
    /// Add one to the counter of the record with this hash, if there is one.
    Increment { hash: ContentHash },
    /// Insert a record with this hash and code and with its counter at one.
    Insert { hash: ContentHash, code: Vec<u8> },
    /// The queue is closed and drained: the saver is done.
    Finish,
    /// The saver has failed.
    Abort { error: SaveError },
}

/// `SaveRequest` with its data as mathematical values.
pub enum SaveRequestView {
    Receive,
    Increment { hash: Seq<u8> },
    Insert { hash: Seq<u8>, code: Seq<u8> },
    Finish,
    Abort { error: SaveError },
}

impl View for SaveRequest {
    type V = SaveRequestView;

    open spec fn view(&self) -> SaveRequestView {
        match *self {
            SaveRequest::Receive => SaveRequestView::Receive,
            SaveRequest::Increment { hash } => SaveRequestView::Increment { hash: hash@ },
            SaveRequest::Insert { hash, code } => SaveRequestView::Insert {
                hash: hash@,
                code: code@,
            },
            SaveRequest::Finish => SaveRequestView::Finish,
            SaveRequest::Abort { error } => SaveRequestView::Abort { error },
        }
    }
}

/// The answer to the saver's outstanding request.
#[derive(Debug)]
pub enum SaveResponse {
    /// The next item of the queue, in answer to `Receive`.
    Item { code: Vec<u8> },
    /// The queue is closed and empty, in answer to `Receive`.
    Closed,
    /// The number of records changed, in answer to `Increment`.
    Updated { rows: u64 },
    /// The record was inserted, in answer to `Insert`.
    Done,
    /// The request failed.
    Failed,
}

/// `SaveResponse` with its data as mathematical values.
pub enum SaveResponseView {
    Item { code: Seq<u8> },
    Closed,
    Updated { rows: u64 },
    Done,
    Failed,
}

impl View for SaveResponse {
    type V = SaveResponseView;

    open spec fn view(&self) -> SaveResponseView {
        match *self {
            SaveResponse::Item { code } => SaveResponseView::Item { code: code@ },
            SaveResponse::Closed => SaveResponseView::Closed,
            SaveResponse::Updated { rows } => SaveResponseView::Updated { rows },
            SaveResponse::Done => SaveResponseView::Done,
            SaveResponse::Failed => SaveResponseView::Failed,
        }
    }
}

/// Where the saver stands.
pub enum SaveState {
    /// Waits for the next item of the queue.
    AwaitItem,
    /// Holds an item and its hash and waits to learn whether a record with
    /// that hash took the increment.
    AwaitUpdate { hash: Seq<u8>, code: Seq<u8> },
    /// Waits for the new record to be inserted.
    AwaitInsert,
    /// The queue was closed; nothing more is asked for.
    Finished,
    /// The saver failed; nothing more is asked for.
    Failed { error: SaveError },
}

impl SaveState {
    /// Whether `request` is what the saver in this state waits on.
    pub open spec fn awaits(self, request: SaveRequestView) -> bool {
        match self {
            SaveState::AwaitItem => request == SaveRequestView::Receive,
            SaveState::AwaitUpdate { hash, .. } => request == (SaveRequestView::Increment { hash }),
            SaveState::AwaitInsert => request is Insert,
            SaveState::Finished => request == SaveRequestView::Finish,
            SaveState::Failed { error } => request == (SaveRequestView::Abort { error }),
        }
    }

    /// The error that a failure of the awaited request stands for.
    pub open spec fn failure(self) -> SaveError {
        match self {
            SaveState::AwaitUpdate { .. } => SaveError::Update,
            SaveState::AwaitInsert => SaveError::Insert,
            SaveState::AwaitItem | SaveState::Finished => SaveError::Protocol,
            SaveState::Failed { error } => error,
        }
    }
}

/// The content hash of `code`, where the bytecode decoder accepts it.
pub open spec fn digest_spec(code: Seq<u8>) -> Option<Seq<u8>> {
    if is_malformed_delegation(code) {
        None
    } else {
        Some(keccak256(code))
    }
}

/// The saver gives up with `error`.
pub open spec fn save_fail(error: SaveError) -> (SaveState, SaveRequestView) {
    (SaveState::Failed { error }, SaveRequestView::Abort { error })
}

/// The saver takes up an item whose content hash is `hash`: it tries the
/// increment first. An item without a hash is fatal.
pub open spec fn accept_spec(state: SaveState, code: Seq<u8>, hash: Option<Seq<u8>>) -> (
    SaveState,
    SaveRequestView,
) {
    match state {
        SaveState::Finished => (SaveState::Finished, SaveRequestView::Finish),
        SaveState::Failed { error } => save_fail(error),
        SaveState::AwaitItem => match hash {
            Some(hash) => (SaveState::AwaitUpdate { hash, code }, SaveRequestView::Increment { hash }),
            None => save_fail(SaveError::Malformed),
        },
        _ => save_fail(SaveError::Protocol),
    }
}

/// One decision of the saver: from where it stands and the answer to its
/// outstanding request to where it stands next and what it asks for.
pub open spec fn save_step_spec(state: SaveState, response: SaveResponseView) -> (
    SaveState,
    SaveRequestView,
) {
    match state {
        SaveState::Finished => (SaveState::Finished, SaveRequestView::Finish),
        SaveState::Failed { error } => save_fail(error),
        _ => match response {
            SaveResponseView::Failed => save_fail(state.failure()),
            SaveResponseView::Item { code } => accept_spec(state, code, digest_spec(code)),
            _ => match (state, response) {
                (SaveState::AwaitItem, SaveResponseView::Closed) => (
                    SaveState::Finished,
                    SaveRequestView::Finish,
                ),
                (SaveState::AwaitUpdate { hash, code }, SaveResponseView::Updated { rows }) => {
                    if rows != 0 {
                        (SaveState::AwaitItem, SaveRequestView::Receive)
                    } else {
                        (SaveState::AwaitInsert, SaveRequestView::Insert { hash, code })
                    }
                },
                (SaveState::AwaitInsert, SaveResponseView::Done) => (
                    SaveState::AwaitItem,
                    SaveRequestView::Receive,
                ),
                _ => save_fail(SaveError::Protocol),
            },
        },
    }
}

/// Whether the step from `state` on `response` completes the storing of a new
/// bytecode.
pub open spec fn completes_insert(state: SaveState, response: SaveResponseView) -> bool {
    state is AwaitInsert && response is Done
}

/// The saver starts by asking for the first item.
pub open spec fn save_start_spec() -> (SaveState, SaveRequestView) {
    (SaveState::AwaitItem, SaveRequestView::Receive)
}

/// After every step the saver waits on the very request that the step gave
/// out.
pub proof fn law_save_step_keeps_form(state: SaveState, response: SaveResponseView)
    ensures
        save_step_spec(state, response).0.awaits(save_step_spec(state, response).1),
{
}

} // verus!
