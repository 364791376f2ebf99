use vstd::prelude::*;
use crate::digest::keccak256;
use crate::protocol::ResponseView;
use crate::scan::law_step_keeps_form;
use crate::save::SaveResponseView;
use crate::table::{
    in_step, law_content_addressing, lemma_in_step_advance, observed_all, occurrences,
    save_advance, save_begin, table_honest, SaveRun, Table,
};
use crate::world::{advance, begin, honest, Ledger, Run, World};

verus! {

/// The walker and the saver at work side by side, joined by the queue: the
/// walker puts code at its back, the saver takes code from its front.
/// `consumed` is the number of items that the saver has taken.
pub struct System {
    pub walk: Run,
    pub save: SaveRun,
    pub consumed: nat,
}

/// One move of the system: an answer to the walker or an answer to the saver.
/// The two take their turns in any order.
pub enum Move {
    Walk { response: ResponseView },
    Save { response: SaveResponseView },
}

/// The system at the start of a process: the checkpoints and the table are
/// what earlier processes left, the queue is new and empty.
pub open spec fn boot(ledger: Ledger, table: Table) -> System {
    System {
        walk: begin(World { ledger, queue: Seq::empty() }),
        save: save_begin(table),
        consumed: 0,
    }
}

/// Whether the walker has let go of the queue: it has ended.
pub open spec fn queue_closed(system: System) -> bool {
    system.walk.state is Finished || system.walk.state is Failed
}

/// Whether the move can happen: the answer is honest, and what the saver is
/// given as the next item is the oldest item of the queue that it has not
/// taken yet. The queue reads as closed only when the walker has let go of it
/// and every item was taken.
pub open spec fn fair(system: System, step: Move) -> bool {
    match step {
        Move::Walk { response } => honest(system.walk.world, system.walk.trace.last(), response),
        Move::Save { response } => {
            &&& table_honest(system.save.table, system.save.trace.last(), response)
            &&& system.save.state is AwaitItem ==> match response {
                SaveResponseView::Item { code } => system.consumed < system.walk.world.queue.len()
                    && code == system.walk.world.queue[system.consumed as int],
                SaveResponseView::Closed => queue_closed(system) && system.consumed
                    == system.walk.world.queue.len(),
                _ => true,
            }
        },
    }
}

/// The system after the move.
pub open spec fn follow(system: System, step: Move) -> System {
    match step {
        Move::Walk { response } => System { walk: advance(system.walk, response), ..system },
        Move::Save { response } => System {
            save: save_advance(system.save, response),
            consumed: if system.save.state is AwaitItem && response is Item {
                system.consumed + 1
            } else {
                system.consumed
            },
            ..system
        },
    }
}

/// The system after `moves`, in order, from its start.
pub open spec fn unfold(ledger: Ledger, table: Table, moves: Seq<Move>) -> System
    decreases moves.len(),
{
    if moves.len() == 0 {
        boot(ledger, table)
    } else {
        follow(unfold(ledger, table, moves.drop_last()), moves.last())
    }
}

/// Whether each of `moves` can happen when its turn comes.
pub open spec fn fair_moves(ledger: Ledger, table: Table, moves: Seq<Move>) -> bool
    decreases moves.len(),
{
    moves.len() > 0 ==> fair_moves(ledger, table, moves.drop_last()) && fair(
        unfold(ledger, table, moves.drop_last()),
        moves.last(),
    )
}

/// The saver has taken the first `consumed` items of the queue, in the order
/// in which the walker put them there, and the table is in step with them.
pub open spec fn in_order(table: Table, system: System) -> bool {
    &&& system.consumed <= system.walk.world.queue.len()
    &&& system.save.taken == system.walk.world.queue.take(system.consumed as int)
    &&& in_step(table, system.save)
    &&& system.walk.trace.len() > 0
    &&& system.walk.state.wf()
    &&& system.walk.state.awaits(system.walk.trace.last())
    &&& system.save.state is Finished ==> queue_closed(system) && system.consumed
        == system.walk.world.queue.len()
}

proof fn lemma_in_order(ledger: Ledger, table: Table, moves: Seq<Move>)
    requires
        fair_moves(ledger, table, moves),
    ensures
        in_order(table, unfold(ledger, table, moves)),
    decreases moves.len(),
{
    if moves.len() == 0 {
        assert(boot(ledger, table).save.taken == Seq::<Seq<u8>>::empty().take(0));
    } else {
        let before = unfold(ledger, table, moves.drop_last());
        let after = unfold(ledger, table, moves);
        lemma_in_order(ledger, table, moves.drop_last());
        match moves.last() {
            Move::Walk { response } => {
                law_step_keeps_form(before.walk.state, response);
                assert(before.walk.world.queue.is_prefix_of(after.walk.world.queue));
                assert(after.walk.world.queue.take(after.consumed as int)
                    == before.walk.world.queue.take(before.consumed as int));
            },
            Move::Save { response } => {
                lemma_in_step_advance(table, before.save, response);
                if before.save.state is AwaitItem && response is Item {
                    assert(after.walk.world.queue.take(after.consumed as int)
                        == before.walk.world.queue.take(before.consumed as int).push(
                        response->Item_code,
                    ));
                }
            },
        }
    }
}

/// The queue keeps its order, and nothing is taken twice or skipped: at every
/// moment the items that the saver has taken are the first items that the
/// walker has enqueued, in the order of their discovery.
pub proof fn law_queue_is_first_in_first_out(ledger: Ledger, table: Table, moves: Seq<Move>)
    requires
        fair_moves(ledger, table, moves),
    ensures
        unfold(ledger, table, moves).save.taken.is_prefix_of(
            unfold(ledger, table, moves).walk.world.queue,
        ),
        unfold(ledger, table, moves).save.taken.len() == unfold(ledger, table, moves).consumed,
{
    lemma_in_order(ledger, table, moves);
}

/// When the saver is done, the walker has ended, and the table is what the
/// observation of every code that the walker enqueued, each once and in the
/// order of discovery, makes of the table that the process began with.
pub proof fn law_saver_drains_the_queue(ledger: Ledger, table: Table, moves: Seq<Move>)
    requires
        fair_moves(ledger, table, moves),
        unfold(ledger, table, moves).save.state is Finished,
    ensures
        queue_closed(unfold(ledger, table, moves)),
        unfold(ledger, table, moves).save.table == observed_all(
            table,
            unfold(ledger, table, moves).walk.world.queue,
        ),
{
    lemma_in_order(ledger, table, moves);
    let system = unfold(ledger, table, moves);
    assert(system.walk.world.queue.take(system.consumed as int) == system.walk.world.queue);
}

/// Content addressing from end to end: when the saver is done on a table that
/// was empty, there is one record for every hash of enqueued code and none
/// besides, and the counter of the record is the number of times that code
/// with this hash was discovered and enqueued.
pub proof fn law_records_count_discoveries(ledger: Ledger, moves: Seq<Move>, hash: Seq<u8>)
    requires
        fair_moves(ledger, Map::empty(), moves),
        unfold(ledger, Map::empty(), moves).save.state is Finished,
    ensures
        ({
            let system = unfold(ledger, Map::empty(), moves);
            let queue = system.walk.world.queue;
            &&& system.save.table.contains_key(hash) <==> occurrences(queue, hash) > 0
            &&& system.save.table.contains_key(hash) ==> {
                &&& system.save.table[hash].call_counter == occurrences(queue, hash)
                &&& keccak256(system.save.table[hash].code) == hash
                &&& queue.contains(system.save.table[hash].code)
            }
        }),
{
    law_saver_drains_the_queue(ledger, Map::empty(), moves);
    law_content_addressing(unfold(ledger, Map::empty(), moves).walk.world.queue, hash);
}

} // verus!
