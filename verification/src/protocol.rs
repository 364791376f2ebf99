use vstd::prelude::*;
use crate::address::Address;

verus! {

/// Why a scan was abandoned. Every failure is fatal: the walker never retries.
#[derive(Clone, Copy, Debug, PartialEq, Eq, Structural)]
pub enum ScanError {
    /// The chain head could not be read.
    HeadQuery,
    /// A checkpoint could not be read.
    CheckpointRead,
    /// A block could not be fetched.
    BlockFetch,
    /// The provider had no block at the height asked for.
    EmptyBlock,
    /// The code of an address could not be fetched.
    CodeFetch,
    /// An address checkpoint could not be written.
    AddressMark,
    /// The code could not be handed to the saver.
    Enqueue,
    /// A block checkpoint could not be written.
    BlockMark,
    /// The answer given does not belong to the request that was outstanding.
    Protocol,
}

impl ScanError {
    pub open spec fn message_spec(self) -> Seq<char> {
        match self {
            ScanError::HeadQuery => "failed to get latest block"@,
            ScanError::CheckpointRead => "failed to read checkpoints"@,
            ScanError::BlockFetch => "failed to get block by number"@,
            ScanError::EmptyBlock => "fetched empty block"@,
            ScanError::CodeFetch => "failed to get code"@,
            ScanError::AddressMark => "failed to mark address as fetched"@,
            ScanError::Enqueue => "failed to send to saver"@,
            ScanError::BlockMark => "failed to mark block as fetched"@,
            ScanError::Protocol => "answer does not match the outstanding request"@,
        }
    }

    /// The context line reported with the error.
    pub fn message(&self) -> (text: &'static str)
        ensures
            text@ == self.message_spec(),
    {
        match self {
            ScanError::HeadQuery => "failed to get latest block",
            ScanError::CheckpointRead => "failed to read checkpoints",
            ScanError::BlockFetch => "failed to get block by number",
            ScanError::EmptyBlock => "fetched empty block",
            ScanError::CodeFetch => "failed to get code",
            ScanError::AddressMark => "failed to mark address as fetched",
            ScanError::Enqueue => "failed to send to saver",
            ScanError::BlockMark => "failed to mark block as fetched",
            ScanError::Protocol => "answer does not match the outstanding request",
        }
    }
}

/// A transaction, as far as the scan reads it: its recipient. A transaction
/// that creates a contract has none.
#[derive(Clone, Copy, Debug)]
pub struct Transaction {
    pub to: Option<Address>,
}

/// A block with its transactions in chain order.
#[derive(Debug)]
pub struct Block {
    pub transactions: Vec<Transaction>,
}

impl View for Block {
    type V = Seq<Option<Address>>;

    open spec fn view(&self) -> Seq<Option<Address>> {
        Seq::new(self.transactions@.len(), |i: int| self.transactions@[i].to)
    }
}

/// The recipients of a block's transactions, in transaction order and with
/// repetitions; contract creations contribute nothing.
pub open spec fn callee_addresses(recipients: Seq<Option<Address>>) -> Seq<Address>
    decreases recipients.len(),
{
    if recipients.len() == 0 {
        Seq::empty()
    } else {
        let before = callee_addresses(recipients.drop_last());
        match recipients.last() {
            Some(address) => before.push(address),
            None => before,
        }
    }
}

impl Block {
    /// The callee addresses of the block.
    pub fn callees(&self) -> (out: Vec<Address>)
        ensures
            out@ == callee_addresses(self@),
    {
        let mut out: Vec<Address> = Vec::new();
        let mut i: usize = 0;
        while i < self.transactions.len()
            invariant
                i <= self.transactions.len(),
                out@ == callee_addresses(self@.take(i as int)),
            decreases self.transactions.len() - i,
        {
            let transaction = self.transactions[i];
            assert(self@.take(i + 1).drop_last() == self@.take(i as int));
            assert(self@.take(i + 1).last() == transaction.to);
            if let Some(address) = transaction.to {
                out.push(address);
            }
            i += 1;
        }
        assert(self@.take(i as int) == self@);
        out
    }
}

/// What the walker asks its surroundings to do next.
#[derive(Debug)]
pub enum Request {
    /// Read the current chain head.
    QueryHead,
    /// Read the shutdown flag.
    PollShutdown,
    /// Is the checkpoint of this block present?
    IsBlockMarked { height: u64 },
    /// Fetch the block at this height with its transactions.
    FetchBlock { height: u64 },
    /// Is the checkpoint of this address present?
    IsAddressMarked { address: Address },
    /// Fetch the code of the address as of this height.
    FetchCode { address: Address, height: u64 },
    /// Write the checkpoint of this address.
    MarkAddress { address: Address },
    /// Hand this code to the saver.
    Enqueue { code: Vec<u8> },
    /// Write the checkpoint of this block.
    MarkBlock { height: u64 },
    /// The scan has ended: close the queue and wait for the saver.
    Finish,
    /// The scan has failed.
    Abort { error: ScanError },
}

/// `Request` with its data as mathematical values.
pub enum RequestView {
    QueryHead,
    PollShutdown,
    IsBlockMarked { height: u64 },
    FetchBlock { height: u64 },
    IsAddressMarked { address: Address },
    FetchCode { address: Address, height: u64 },
    MarkAddress { address: Address },
    Enqueue { code: Seq<u8> },
    MarkBlock { height: u64 },
    Finish,
    Abort { error: ScanError },
}

impl View for Request {
    type V = RequestView;

    open spec fn view(&self) -> RequestView {
        match *self {
            Request::QueryHead => RequestView::QueryHead,
            Request::PollShutdown => RequestView::PollShutdown,
            Request::IsBlockMarked { height } => RequestView::IsBlockMarked { height },
            Request::FetchBlock { height } => RequestView::FetchBlock { height },
            Request::IsAddressMarked { address } => RequestView::IsAddressMarked { address },
            Request::FetchCode { address, height } => RequestView::FetchCode { address, height },
            Request::MarkAddress { address } => RequestView::MarkAddress { address },
            Request::Enqueue { code } => RequestView::Enqueue { code: code@ },
            Request::MarkBlock { height } => RequestView::MarkBlock { height },
            Request::Finish => RequestView::Finish,
            Request::Abort { error } => RequestView::Abort { error },
        }
    }
}

/// The answer to the outstanding request.
#[derive(Debug)]
pub enum Response {
    /// The chain head, in answer to `QueryHead`.
    Head { height: u64 },
    /// The shutdown flag, in answer to `PollShutdown`.
    Shutdown { requested: bool },
    /// Whether the checkpoint is present, in answer to `IsBlockMarked` and
    /// `IsAddressMarked`.
    Marked { present: bool },
    /// The block, in answer to `FetchBlock`.
    Block { block: Block },
    /// The provider has no block at that height, in answer to `FetchBlock`.
    NoBlock,
    /// The code, in answer to `FetchCode`.
    Code { code: Vec<u8> },
    /// The write or hand-over was made, in answer to `MarkAddress`, `Enqueue`
    /// and `MarkBlock`.
    Done,
    /// The request failed.
    Failed,
}

/// `Response` with its data as mathematical values.
pub enum ResponseView {
    Head { height: u64 },
    Shutdown { requested: bool },
    Marked { present: bool },
    Block { recipients: Seq<Option<Address>> },
    NoBlock,
    Code { code: Seq<u8> },
    Done,
    Failed,
}

impl View for Response {
    type V = ResponseView;

    open spec fn view(&self) -> ResponseView {
        match *self {
            Response::Head { height } => ResponseView::Head { height },
            Response::Shutdown { requested } => ResponseView::Shutdown { requested },
            Response::Marked { present } => ResponseView::Marked { present },
            Response::Block { block } => ResponseView::Block { recipients: block@ },
            Response::NoBlock => ResponseView::NoBlock,
            Response::Code { code } => ResponseView::Code { code: code@ },
            Response::Done => ResponseView::Done,
            Response::Failed => ResponseView::Failed,
        }
    }
}

} // verus!
