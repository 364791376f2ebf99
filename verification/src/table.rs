use vstd::prelude::*;
use crate::digest::keccak256;
use crate::save::{
    law_save_step_keeps_form, save_start_spec, save_step_spec, SaveRequestView, SaveResponseView,
    SaveState,
};

verus! {

/// A record of the bytecode table: the code and the number of times it was
/// observed.
pub struct Record {
    pub code: Seq<u8>,
    pub call_counter: nat,
}

/// The bytecode table: records by content hash.
pub type Table = Map<Seq<u8>, Record>;

/// The table after one more observation of `code`: the counter of its record
/// goes up by one, and where it had no record it gets one with the counter at
/// one.
pub open spec fn observed(table: Table, code: Seq<u8>) -> Table {
    let hash = keccak256(code);
    if table.contains_key(hash) {
        table.insert(hash, Record { call_counter: table[hash].call_counter + 1, ..table[hash] })
    } else {
        table.insert(hash, Record { code, call_counter: 1 })
    }
}

/// The table after the observation of each of `items`, in order.
pub open spec fn observed_all(table: Table, items: Seq<Seq<u8>>) -> Table
    decreases items.len(),
{
    if items.len() == 0 {
        table
    } else {
        observed(observed_all(table, items.drop_last()), items.last())
    }
}

/// The number of `items` whose content hash is `hash`.
pub open spec fn occurrences(items: Seq<Seq<u8>>, hash: Seq<u8>) -> nat
    decreases items.len(),
{
    if items.len() == 0 {
        0
    } else {
        occurrences(items.drop_last(), hash) + if keccak256(items.last()) == hash {
            1nat
        } else {
            0nat
        }
    }
}

/// The number of `items` that are byte for byte `code`.
pub open spec fn copies(items: Seq<Seq<u8>>, code: Seq<u8>) -> nat
    decreases items.len(),
{
    if items.len() == 0 {
        0
    } else {
        copies(items.drop_last(), code) + if items.last() == code {
            1nat
        } else {
            0nat
        }
    }
}

/// Content addressing: after any items were observed from an empty table on,
/// the table has a record under a hash exactly if an item with that hash was
/// observed; there is at most one record for it, its counter is the number of
/// such items, and its code is one of them.
pub proof fn law_content_addressing(items: Seq<Seq<u8>>, hash: Seq<u8>)
    ensures
        observed_all(Map::empty(), items).contains_key(hash) <==> occurrences(items, hash) > 0,
        observed_all(Map::empty(), items).contains_key(hash) ==> {
            let record = observed_all(Map::empty(), items)[hash];
            &&& record.call_counter == occurrences(items, hash)
            &&& keccak256(record.code) == hash
            &&& items.contains(record.code)
        },
    decreases items.len(),
{
    if items.len() > 0 {
        let before = items.drop_last();
        law_content_addressing(before, hash);
        let table = observed_all(Map::empty(), before);
        if table.contains_key(hash) {
            let code = table[hash].code;
            let i = choose|i: int| 0 <= i < before.len() && before[i] == code;
            assert(items[i] == code);
        } else if keccak256(items.last()) == hash {
            assert(items[items.len() - 1] == items.last());
        }
    }
}

/// Items with the same bytes have the same hash, so they share one record;
/// the items with a hash are at least the copies of any code with that hash,
/// and no more than those where no other observed code has the same hash.
pub proof fn law_identical_code_shares_record(items: Seq<Seq<u8>>, code: Seq<u8>)
    ensures
        copies(items, code) <= occurrences(items, keccak256(code)),
        (forall|i: int|
            0 <= i < items.len() && keccak256(#[trigger] items[i]) == keccak256(code) ==> items[i]
                == code) ==> copies(items, code) == occurrences(items, keccak256(code)),
    decreases items.len(),
{
    if items.len() > 0 {
        let before = items.drop_last();
        law_identical_code_shares_record(before, code);
        if forall|i: int|
            0 <= i < items.len() && keccak256(#[trigger] items[i]) == keccak256(code) ==> items[i]
                == code {
            assert forall|i: int|
                0 <= i < before.len() && keccak256(#[trigger] before[i]) == keccak256(
                    code,
                ) implies before[i] == code by {
                assert(before[i] == items[i]);
            }
            assert(items.last() == items[items.len() - 1]);
        }
    }
}

/// The counter of a record is the number of observations of its code: where
/// no two different observed codes share a hash, every observed code has
/// exactly one record, and the counter of that record is the number of times
/// the code was observed.
pub proof fn law_counter_counts_observations(items: Seq<Seq<u8>>, code: Seq<u8>)
    requires
        items.contains(code),
        forall|i: int|
            0 <= i < items.len() && keccak256(#[trigger] items[i]) == keccak256(code) ==> items[i]
                == code,
    ensures
        observed_all(Map::empty(), items).contains_key(keccak256(code)),
        observed_all(Map::empty(), items)[keccak256(code)].code == code,
        observed_all(Map::empty(), items)[keccak256(code)].call_counter == copies(items, code),
        copies(items, code) >= 1,
{
    let hash = keccak256(code);
    law_content_addressing(items, hash);
    law_identical_code_shares_record(items, code);
    lemma_occurs(items, code);
    let record = observed_all(Map::empty(), items)[hash];
    let i = choose|i: int| 0 <= i < items.len() && items[i] == record.code;
    assert(keccak256(items[i]) == hash);
}

proof fn lemma_occurs(items: Seq<Seq<u8>>, code: Seq<u8>)
    requires
        items.contains(code),
    ensures
        copies(items, code) >= 1,
    decreases items.len(),
{
    if items.len() > 0 && items.last() != code {
        let i = choose|i: int| 0 <= i < items.len() && items[i] == code;
        assert(items.drop_last()[i] == code);
        lemma_occurs(items.drop_last(), code);
    }
}

/// The table after `request` has been carried out. An increment changes the
/// record with that hash and nothing where there is none.
pub open spec fn carry_out(table: Table, request: SaveRequestView) -> Table {
    match request {
        SaveRequestView::Increment { hash } => if table.contains_key(hash) {
            table.insert(hash, Record { call_counter: table[hash].call_counter + 1, ..table[hash] })
        } else {
            table
        },
        SaveRequestView::Insert { hash, code } => table.insert(
            hash,
            Record { code, call_counter: 1 },
        ),
        _ => table,
    }
}

/// The table after `request` was answered by `response`: a request that failed
/// has changed nothing.
pub open spec fn table_after(
    table: Table,
    request: SaveRequestView,
    response: SaveResponseView,
) -> Table {
    if response is Failed {
        table
    } else {
        carry_out(table, request)
    }
}

/// Whether `response` is an answer that `request` can get from `table`. The
/// queue gives an item or is closed; an increment reports one changed record
/// or none; an insert under a hash that has a record fails.
pub open spec fn table_honest(
    table: Table,
    request: SaveRequestView,
    response: SaveResponseView,
) -> bool {
    match request {
        SaveRequestView::Receive => response is Item || response is Closed,
        SaveRequestView::Increment { hash } => response is Failed || response == (
        SaveResponseView::Updated { rows: if table.contains_key(hash) { 1u64 } else { 0u64 } }),
        SaveRequestView::Insert { hash, .. } => response is Failed || (response is Done
            && !table.contains_key(hash)),
        SaveRequestView::Finish | SaveRequestView::Abort { .. } => true,
    }
}

/// The saver at work: where it stands, the table as it is, every request made
/// so far, and the items taken from the queue so far, in order.
pub struct SaveRun {
    pub state: SaveState,
    pub table: Table,
    pub trace: Seq<SaveRequestView>,
    pub taken: Seq<Seq<u8>>,
}

/// The start of the saver's work on `table`.
pub open spec fn save_begin(table: Table) -> SaveRun {
    SaveRun {
        state: save_start_spec().0,
        table,
        trace: seq![save_start_spec().1],
        taken: Seq::empty(),
    }
}

/// The run after the outstanding request was answered by `response`.
pub open spec fn save_advance(run: SaveRun, response: SaveResponseView) -> SaveRun {
    let next = save_step_spec(run.state, response);
    SaveRun {
        state: next.0,
        table: table_after(run.table, run.trace.last(), response),
        trace: run.trace.push(next.1),
        taken: match (run.state, response) {
            (SaveState::AwaitItem, SaveResponseView::Item { code }) => run.taken.push(code),
            _ => run.taken,
        },
    }
}

/// The run that starts on `table` and gets `responses` as its answers, in
/// order.
pub open spec fn save_replay(table: Table, responses: Seq<SaveResponseView>) -> SaveRun
    decreases responses.len(),
{
    if responses.len() == 0 {
        save_begin(table)
    } else {
        save_advance(save_replay(table, responses.drop_last()), responses.last())
    }
}

/// Whether each of `responses` is an honest answer to the request that was
/// outstanding when it came.
pub open spec fn save_honest_answers(table: Table, responses: Seq<SaveResponseView>) -> bool
    decreases responses.len(),
{
    responses.len() > 0 ==> {
        let before = save_replay(table, responses.drop_last());
        save_honest_answers(table, responses.drop_last()) && table_honest(
            before.table,
            before.trace.last(),
            responses.last(),
        )
    }
}

/// How the table stands to the items taken, for each place the saver can
/// stand at.
pub open spec fn in_step(table: Table, run: SaveRun) -> bool {
    &&& run.trace.len() > 0
    &&& run.state.awaits(run.trace.last())
    &&& match run.state {
        SaveState::AwaitItem | SaveState::Finished => run.table == observed_all(table, run.taken),
        SaveState::AwaitUpdate { hash, code } => {
            &&& run.taken.len() > 0
            &&& code == run.taken.last()
            &&& hash == keccak256(code)
            &&& run.table == observed_all(table, run.taken.drop_last())
        },
        SaveState::AwaitInsert => {
            &&& run.taken.len() > 0
            &&& run.trace.last() == (SaveRequestView::Insert {
                hash: keccak256(run.taken.last()),
                code: run.taken.last(),
            })
            &&& !run.table.contains_key(keccak256(run.taken.last()))
            &&& run.table == observed_all(table, run.taken.drop_last())
        },
        SaveState::Failed { .. } => true,
    }
}

/// One honest answer keeps the table in step with the items taken.
pub proof fn lemma_in_step_advance(table: Table, run: SaveRun, response: SaveResponseView)
    requires
        in_step(table, run),
        table_honest(run.table, run.trace.last(), response),
    ensures
        in_step(table, save_advance(run, response)),
{
    let next = save_advance(run, response);
    law_save_step_keeps_form(run.state, response);
    match (run.state, response) {
        (SaveState::AwaitItem, SaveResponseView::Item { code }) => {
            assert(next.taken.drop_last() == run.taken);
        },
        (SaveState::AwaitUpdate { hash, code }, SaveResponseView::Updated { rows }) => {
            assert(next.taken == run.taken);
            if rows != 0 {
                assert(next.table == observed(run.table, code));
            }
        },
        (SaveState::AwaitInsert, SaveResponseView::Done) => {
            assert(next.taken == run.taken);
            assert(next.table == observed(run.table, next.taken.last()));
        },
        _ => {},
    }
}

proof fn lemma_in_step(table: Table, responses: Seq<SaveResponseView>)
    requires
        save_honest_answers(table, responses),
    ensures
        in_step(table, save_replay(table, responses)),
    decreases responses.len(),
{
    if responses.len() > 0 {
        lemma_in_step(table, responses.drop_last());
        lemma_in_step_advance(
            table,
            save_replay(table, responses.drop_last()),
            responses.last(),
        );
    }
}

/// The saver keeps the table in step with the queue: whenever it waits for
/// the next item, and when it is done, the table is what the observation of
/// every item taken so far, in arrival order, makes of the table it began
/// with. An item already stored costs an increment and no second copy of the
/// bytes; a new one is inserted with its counter at one.
pub proof fn law_saver_observes_queue(table: Table, responses: Seq<SaveResponseView>)
    requires
        save_honest_answers(table, responses),
    ensures
        save_replay(table, responses).state is AwaitItem || save_replay(table, responses).state
            is Finished ==> save_replay(table, responses).table == observed_all(
            table,
            save_replay(table, responses).taken,
        ),
{
    lemma_in_step(table, responses);
}

} // verus!
