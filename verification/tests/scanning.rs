use bytecode_scanner::address::Address;
use bytecode_scanner::checkpoint::{address_key, block_key};
use bytecode_scanner::digest::content_hash;
use bytecode_scanner::protocol::{Block, Request, Response, ScanError, Transaction};
use bytecode_scanner::save::{SaveError, SaveRequest, SaveResponse};
use bytecode_scanner::saver::Saver;
use bytecode_scanner::walker::Walker;
use std::collections::{HashMap, HashSet, VecDeque};

fn address(byte: u8) -> Address {
    Address::new([byte; 20])
}

/// A chain, a checkpoint store, a queue and a bytecode table held in memory,
/// with a record of everything that was asked of them.
struct Env {
    head: u64,
    blocks: HashMap<u64, Vec<Option<Address>>>,
    code: HashMap<Address, Vec<u8>>,
    checkpoints: HashSet<Vec<u8>>,
    queue: VecDeque<Vec<u8>>,
    table: HashMap<[u8; 32], (Vec<u8>, u64)>,
    head_queries: usize,
    polls: usize,
    passes: usize,
    shutdown_at_poll: Option<usize>,
    fetched_blocks: Vec<u64>,
    fetched_codes: Vec<(Address, u64)>,
    writes_after_shutdown: usize,
    shutdown_seen: bool,
    fail_code_at: Option<u64>,
    fail_insert: bool,
    synchronous_saver: bool,
    saver: Option<(Saver, SaveRequest)>,
    table_writes: usize,
}

impl Env {
    fn new(head: u64) -> Env {
        Env {
            head,
            blocks: HashMap::new(),
            code: HashMap::new(),
            checkpoints: HashSet::new(),
            queue: VecDeque::new(),
            table: HashMap::new(),
            head_queries: 0,
            polls: 0,
            passes: 1,
            shutdown_at_poll: None,
            fetched_blocks: Vec::new(),
            fetched_codes: Vec::new(),
            writes_after_shutdown: 0,
            shutdown_seen: false,
            fail_code_at: None,
            fail_insert: false,
            synchronous_saver: false,
            saver: None,
            table_writes: 0,
        }
    }

    fn with_block(mut self, height: u64, recipients: Vec<Option<Address>>) -> Env {
        self.blocks.insert(height, recipients);
        self
    }

    fn with_code(mut self, address: Address, code: Vec<u8>) -> Env {
        self.code.insert(address, code);
        self
    }

    fn block_marked(&self, height: u64) -> bool {
        self.checkpoints.contains(&block_key(height))
    }

    fn address_marked(&self, address: &Address) -> bool {
        self.checkpoints.contains(&address_key(address))
    }

    /// Carries out one request of the walker.
    fn answer(&mut self, request: Request) -> Response {
        match request {
            Request::QueryHead => {
                self.head_queries += 1;
                Response::Head { height: self.head }
            }
            Request::PollShutdown => {
                self.polls += 1;
                let requested = match self.shutdown_at_poll {
                    Some(poll) => self.polls >= poll,
                    None => self.head_queries > self.passes,
                };
                if requested {
                    self.shutdown_seen = true;
                }
                Response::Shutdown { requested }
            }
            Request::IsBlockMarked { height } => Response::Marked { present: self.block_marked(height) },
            Request::FetchBlock { height } => {
                self.fetched_blocks.push(height);
                match self.blocks.get(&height) {
                    Some(recipients) => Response::Block {
                        block: Block {
                            transactions: recipients.iter().map(|to| Transaction { to: *to }).collect(),
                        },
                    },
                    None => Response::NoBlock,
                }
            }
            Request::IsAddressMarked { address } => {
                Response::Marked { present: self.address_marked(&address) }
            }
            Request::FetchCode { address, height } => {
                if self.fail_code_at == Some(height) {
                    return Response::Failed;
                }
                self.fetched_codes.push((address, height));
                Response::Code { code: self.code.get(&address).cloned().unwrap_or_default() }
            }
            Request::MarkAddress { address } => {
                if self.shutdown_seen {
                    self.writes_after_shutdown += 1;
                }
                self.checkpoints.insert(address_key(&address));
                Response::Done
            }
            Request::Enqueue { code } => {
                self.queue.push_back(code);
                if self.synchronous_saver {
                    if self.drain().is_err() {
                        return Response::Failed;
                    }
                }
                Response::Done
            }
            Request::MarkBlock { height } => {
                if self.shutdown_seen {
                    self.writes_after_shutdown += 1;
                }
                self.checkpoints.insert(block_key(height));
                Response::Done
            }
            Request::Finish | Request::Abort { .. } => unreachable!(),
        }
    }

    /// Carries out one request of the saver; `None` when the queue is empty
    /// and still open.
    fn serve(&mut self, request: SaveRequest, closed: bool) -> Option<SaveResponse> {
        Some(match request {
            SaveRequest::Receive => match self.queue.pop_front() {
                Some(code) => SaveResponse::Item { code },
                None => {
                    if closed {
                        SaveResponse::Closed
                    } else {
                        return None;
                    }
                }
            },
            SaveRequest::Increment { hash } => match self.table.get_mut(&hash.bytes) {
                Some(record) => {
                    record.1 += 1;
                    self.table_writes += 1;
                    SaveResponse::Updated { rows: 1 }
                }
                None => SaveResponse::Updated { rows: 0 },
            },
            SaveRequest::Insert { hash, code } => {
                if self.fail_insert || self.table.contains_key(&hash.bytes) {
                    SaveResponse::Failed
                } else {
                    self.table.insert(hash.bytes, (code, 1));
                    self.table_writes += 1;
                    SaveResponse::Done
                }
            }
            SaveRequest::Finish | SaveRequest::Abort { .. } => unreachable!(),
        })
    }

    /// Lets the saver work until the queue is empty.
    fn drain(&mut self) -> Result<(), SaveError> {
        self.work(false)
    }

    /// Lets the saver work until the queue is empty and closed.
    fn finish(&mut self) -> Result<(), SaveError> {
        self.work(true)
    }

    fn work(&mut self, closed: bool) -> Result<(), SaveError> {
        let (mut saver, mut request) = match self.saver.take() {
            Some(state) => state,
            None => Saver::new(),
        };
        loop {
            match request {
                SaveRequest::Finish => {
                    self.saver = Some((saver, SaveRequest::Finish));
                    return Ok(());
                }
                SaveRequest::Abort { error } => {
                    self.saver = Some((saver, SaveRequest::Abort { error }));
                    return Err(error);
                }
                other => match self.serve(other, closed) {
                    Some(response) => {
                        let next = saver.step(response);
                        saver = next.0;
                        request = next.1;
                    }
                    None => {
                        self.saver = Some((saver, SaveRequest::Receive));
                        return Ok(());
                    }
                },
            }
        }
    }

    /// Runs the walker to its end.
    fn scan(&mut self) -> Result<(), ScanError> {
        let (mut walker, mut request) = Walker::new();
        for _ in 0..10_000 {
            match request {
                Request::Finish => {
                    assert!(walker.is_over());
                    assert_eq!(walker.error(), None);
                    return Ok(());
                }
                Request::Abort { error } => {
                    assert!(walker.is_over());
                    assert_eq!(walker.error(), Some(error));
                    return Err(error);
                }
                other => {
                    let response = self.answer(other);
                    let next = walker.step(response);
                    walker = next.0;
                    request = next.1;
                }
            }
        }
        panic!("the walker did not end");
    }

    fn record(&self, code: &[u8]) -> Option<&(Vec<u8>, u64)> {
        let hash = content_hash(&code.to_vec()).unwrap();
        self.table.get(&hash.bytes)
    }
}

fn chain_a() -> Env {
    Env::new(3)
        .with_block(3, vec![Some(address(0xaa))])
        .with_block(2, vec![None])
        .with_block(1, vec![Some(address(0xaa))])
        .with_code(address(0xaa), vec![0x60])
}

#[test]
fn address_called_in_two_blocks_is_stored_once() {
    let mut env = chain_a();
    assert_eq!(env.scan(), Ok(()));
    assert_eq!(env.finish(), Ok(()));
    assert_eq!(env.fetched_blocks, vec![3, 2, 1]);
    assert_eq!(env.fetched_codes, vec![(address(0xaa), 3)]);
    assert_eq!(env.table.len(), 1);
    assert_eq!(env.record(&[0x60]), Some(&(vec![0x60], 1)));
    assert!(env.address_marked(&address(0xaa)));
    assert!(env.block_marked(3) && env.block_marked(2) && env.block_marked(1));
}

#[test]
fn counter_is_one_after_the_first_block() {
    let mut env = chain_a();
    env.shutdown_at_poll = Some(2);
    assert_eq!(env.scan(), Ok(()));
    assert_eq!(env.finish(), Ok(()));
    assert_eq!(env.fetched_blocks, vec![3]);
    assert_eq!(env.record(&[0x60]), Some(&(vec![0x60], 1)));
    assert!(env.address_marked(&address(0xaa)));
    assert!(env.block_marked(3));
    assert!(!env.block_marked(2));
}

#[test]
fn two_codes_give_two_records() {
    let mut env = Env::new(3)
        .with_block(3, vec![Some(address(0xaa)), Some(address(0xbb))])
        .with_block(2, vec![None])
        .with_block(1, vec![Some(address(0xaa))])
        .with_code(address(0xaa), vec![0x60])
        .with_code(address(0xbb), vec![0x61]);
    assert_eq!(env.scan(), Ok(()));
    assert_eq!(env.finish(), Ok(()));
    assert_eq!(env.table.len(), 2);
    assert_eq!(env.record(&[0x60]), Some(&(vec![0x60], 1)));
    assert_eq!(env.record(&[0x61]), Some(&(vec![0x61], 1)));
    assert_eq!(env.fetched_codes, vec![(address(0xaa), 3), (address(0xbb), 3)]);
}

#[test]
fn checkpointed_block_is_not_fetched() {
    let mut env = chain_a();
    env.checkpoints.insert(block_key(2));
    assert_eq!(env.scan(), Ok(()));
    assert_eq!(env.fetched_blocks, vec![3, 1]);
    assert!(!env.fetched_blocks.contains(&2));
}

#[test]
fn failed_insert_leaves_block_unmarked() {
    let mut env = chain_a();
    env.fail_insert = true;
    env.synchronous_saver = true;
    assert_eq!(env.scan(), Err(ScanError::Enqueue));
    assert_eq!(env.finish(), Err(SaveError::Insert));
    assert!(!env.block_marked(3));
    assert!(env.table.is_empty());
    assert_eq!(env.fetched_blocks, vec![3]);
}

#[test]
fn resume_after_abort_fetches_nothing_twice() {
    let mut env = Env::new(4)
        .with_block(4, vec![Some(address(0x01)), Some(address(0x02))])
        .with_block(3, vec![Some(address(0x03))])
        .with_block(2, vec![Some(address(0x01)), Some(address(0x04))])
        .with_block(1, vec![Some(address(0x03))])
        .with_code(address(0x01), vec![0x01])
        .with_code(address(0x02), vec![0x02])
        .with_code(address(0x03), vec![0x03])
        .with_code(address(0x04), vec![0x04]);
    env.fail_code_at = Some(2);
    assert_eq!(env.scan(), Err(ScanError::CodeFetch));
    assert_eq!(env.fetched_blocks, vec![4, 3, 2]);
    assert!(env.block_marked(4) && env.block_marked(3));
    assert!(!env.block_marked(2));
    let first_run_codes = env.fetched_codes.clone();
    assert_eq!(first_run_codes, vec![(address(0x01), 4), (address(0x02), 4), (address(0x03), 3)]);

    env.fail_code_at = None;
    env.fetched_blocks.clear();
    env.fetched_codes.clear();
    env.head_queries = 0;
    assert_eq!(env.scan(), Ok(()));
    assert_eq!(env.fetched_blocks, vec![2, 1]);
    assert_eq!(env.fetched_codes, vec![(address(0x04), 2)]);
    assert_eq!(env.finish(), Ok(()));
    assert_eq!(env.table.len(), 4);
}

#[test]
fn identical_code_at_two_addresses_shares_one_record() {
    let mut env = Env::new(2)
        .with_block(2, vec![Some(address(0xaa)), Some(address(0xbb))])
        .with_block(1, vec![Some(address(0xcc)), Some(address(0xaa))])
        .with_code(address(0xaa), vec![0x60, 0x00])
        .with_code(address(0xbb), vec![0x60, 0x00])
        .with_code(address(0xcc), vec![0x60, 0x00]);
    assert_eq!(env.scan(), Ok(()));
    assert_eq!(env.finish(), Ok(()));
    assert_eq!(env.table.len(), 1);
    assert_eq!(env.record(&[0x60, 0x00]), Some(&(vec![0x60, 0x00], 3)));
    assert_eq!(env.table_writes, 3);
}

#[test]
fn fetched_heights_descend_within_a_pass() {
    let mut env = Env::new(6);
    for height in 1..=6 {
        env.blocks.insert(height, vec![None]);
    }
    env.checkpoints.insert(block_key(4));
    assert_eq!(env.scan(), Ok(()));
    assert_eq!(env.fetched_blocks, vec![6, 5, 3, 2, 1]);
    for pair in env.fetched_blocks.windows(2) {
        assert!(pair[0] > pair[1]);
    }
}

#[test]
fn shutdown_stops_before_the_next_block() {
    let mut env = Env::new(5);
    for height in 1..=5 {
        env.blocks.insert(height, vec![Some(address(height as u8))]);
        env.code.insert(address(height as u8), vec![height as u8]);
    }
    env.shutdown_at_poll = Some(3);
    assert_eq!(env.scan(), Ok(()));
    assert_eq!(env.fetched_blocks, vec![5, 4]);
    assert_eq!(env.polls, 3);
    assert_eq!(env.writes_after_shutdown, 0);
    assert!(env.block_marked(4));
    assert!(!env.block_marked(3));
    assert_eq!(env.finish(), Ok(()));
    assert_eq!(env.table.len(), 2);
}

#[test]
fn shutdown_at_first_poll_fetches_nothing() {
    let mut env = chain_a();
    env.shutdown_at_poll = Some(1);
    assert_eq!(env.scan(), Ok(()));
    assert!(env.fetched_blocks.is_empty());
    assert!(env.checkpoints.is_empty());
    assert_eq!(env.finish(), Ok(()));
    assert!(env.table.is_empty());
}

#[test]
fn empty_chain_asks_for_the_head_again() {
    let (walker, request) = Walker::new();
    assert!(matches!(request, Request::QueryHead));
    let (walker, request) = walker.step(Response::Head { height: 0 });
    assert!(matches!(request, Request::QueryHead));
    assert!(!walker.is_over());
}

#[test]
fn missing_block_is_fatal() {
    let mut env = Env::new(2).with_block(2, vec![None]);
    assert_eq!(env.scan(), Err(ScanError::EmptyBlock));
    assert!(env.block_marked(2));
    assert!(!env.block_marked(1));
}

#[test]
fn each_failure_has_its_error() {
    let fail_after = |answers: Vec<Response>| -> ScanError {
        let (mut walker, mut request) = Walker::new();
        for answer in answers {
            let next = walker.step(answer);
            walker = next.0;
            request = next.1;
        }
        let (walker, request2) = walker.step(Response::Failed);
        drop(request);
        match request2 {
            Request::Abort { error } => {
                assert_eq!(walker.error(), Some(error));
                error
            }
            _ => panic!("no abort"),
        }
    };
    let head = || Response::Head { height: 7 };
    let clear = || Response::Shutdown { requested: false };
    let unmarked = || Response::Marked { present: false };
    let block = || Response::Block {
        block: Block { transactions: vec![Transaction { to: Some(address(9)) }] },
    };
    assert_eq!(fail_after(vec![]), ScanError::HeadQuery);
    assert_eq!(fail_after(vec![head()]), ScanError::Protocol);
    assert_eq!(fail_after(vec![head(), clear()]), ScanError::CheckpointRead);
    assert_eq!(fail_after(vec![head(), clear(), unmarked()]), ScanError::BlockFetch);
    assert_eq!(fail_after(vec![head(), clear(), unmarked(), block()]), ScanError::CheckpointRead);
    assert_eq!(
        fail_after(vec![head(), clear(), unmarked(), block(), unmarked()]),
        ScanError::CodeFetch
    );
    assert_eq!(
        fail_after(vec![
            head(),
            clear(),
            unmarked(),
            block(),
            unmarked(),
            Response::Code { code: vec![1] }
        ]),
        ScanError::AddressMark
    );
    assert_eq!(
        fail_after(vec![
            head(),
            clear(),
            unmarked(),
            block(),
            unmarked(),
            Response::Code { code: vec![1] },
            Response::Done
        ]),
        ScanError::Enqueue
    );
    assert_eq!(
        fail_after(vec![
            head(),
            clear(),
            unmarked(),
            block(),
            unmarked(),
            Response::Code { code: vec![1] },
            Response::Done,
            Response::Done
        ]),
        ScanError::BlockMark
    );
}

#[test]
fn wrong_answer_is_a_protocol_error() {
    let (walker, _) = Walker::new();
    let (walker, request) = walker.step(Response::Done);
    assert!(matches!(request, Request::Abort { error: ScanError::Protocol }));
    let (walker, request) = walker.step(Response::Head { height: 3 });
    assert!(matches!(request, Request::Abort { error: ScanError::Protocol }));
    assert_eq!(walker.error(), Some(ScanError::Protocol));
}

#[test]
fn walker_requests_follow_the_order_of_the_loop() {
    let (walker, request) = Walker::new();
    assert!(matches!(request, Request::QueryHead));
    let (walker, request) = walker.step(Response::Head { height: 2 });
    assert!(matches!(request, Request::PollShutdown));
    let (walker, request) = walker.step(Response::Shutdown { requested: false });
    assert!(matches!(request, Request::IsBlockMarked { height: 2 }));
    let (walker, request) = walker.step(Response::Marked { present: false });
    assert!(matches!(request, Request::FetchBlock { height: 2 }));
    let block = Block {
        transactions: vec![
            Transaction { to: None },
            Transaction { to: Some(address(1)) },
            Transaction { to: Some(address(2)) },
        ],
    };
    let (walker, request) = walker.step(Response::Block { block });
    assert!(matches!(request, Request::IsAddressMarked { address } if address == address_of(1)));
    let (walker, request) = walker.step(Response::Marked { present: true });
    assert!(matches!(request, Request::IsAddressMarked { address } if address == address_of(2)));
    let (walker, request) = walker.step(Response::Marked { present: false });
    assert!(matches!(request, Request::FetchCode { address, height: 2 } if address == address_of(2)));
    let (walker, request) = walker.step(Response::Code { code: vec![0xfe] });
    assert!(matches!(request, Request::MarkAddress { address } if address == address_of(2)));
    let (walker, request) = walker.step(Response::Done);
    assert!(matches!(request, Request::Enqueue { ref code } if code == &vec![0xfe]));
    let (walker, request) = walker.step(Response::Done);
    assert!(matches!(request, Request::MarkBlock { height: 2 }));
    let (walker, request) = walker.step(Response::Done);
    assert!(matches!(request, Request::PollShutdown));
    let (walker, request) = walker.step(Response::Shutdown { requested: false });
    assert!(matches!(request, Request::IsBlockMarked { height: 1 }));
    let (walker, request) = walker.step(Response::Marked { present: true });
    assert!(matches!(request, Request::QueryHead));
    assert!(!walker.is_over());
}

fn address_of(byte: u8) -> Address {
    address(byte)
}

#[test]
fn walker_reports_blocks_once_a_minute() {
    let mut env = Env::new(3);
    for height in 1..=3 {
        env.blocks.insert(height, vec![None]);
    }
    env.checkpoints.insert(block_key(2));
    let (mut walker, mut request) = Walker::new();
    loop {
        if matches!(request, Request::QueryHead) && env.head_queries == 1 {
            break;
        }
        let response = env.answer(request);
        let next = walker.step(response);
        walker = next.0;
        request = next.1;
    }
    assert_eq!(walker.report(59), None);
    assert_eq!(walker.report(60), Some(2));
    assert_eq!(walker.report(61), Some(0));
}
