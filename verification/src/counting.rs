use vstd::prelude::*;
use crate::opcode::{is_opcode, opcode_defined};

verus! {

/// How often each opcode was executed: one entry for each opcode that was
/// executed at all, in ascending order of the opcode's byte.
#[derive(Clone, Debug, Default)]
pub struct OpcodeUsage {
    entries: Vec<(u8, usize)>,
}

impl View for OpcodeUsage {
    type V = Seq<(u8, usize)>;

    closed spec fn view(&self) -> Seq<(u8, usize)> {
        self.entries@
    }
}

/// The count that `entries` hold for `op`: that of the first entry for it.
pub open spec fn usage_of(entries: Seq<(u8, usize)>, op: u8) -> Option<usize>
    decreases entries.len(),
{
    if entries.len() == 0 {
        None
    } else if entries[0].0 == op {
        Some(entries[0].1)
    } else {
        usage_of(entries.drop_first(), op)
    }
}

/// The entries for the bytes below `upto`: each byte that is an opcode and
/// was counted at least once, with its count, in ascending order.
pub open spec fn usage_entries(counts: Seq<usize>, upto: int) -> Seq<(u8, usize)>
    decreases upto,
{
    if upto <= 0 {
        Seq::empty()
    } else {
        let before = usage_entries(counts, upto - 1);
        let byte = (upto - 1) as u8;
        if counts[upto - 1] > 0 && opcode_defined(byte) {
            before.push((byte, counts[upto - 1]))
        } else {
            before
        }
    }
}

impl OpcodeUsage {
    /// A usage with the given entries.
    pub fn from_entries(entries: Vec<(u8, usize)>) -> (usage: OpcodeUsage)
        ensures
            usage@ == entries@,
    {
        OpcodeUsage { entries }
    }

    /// How often `op` was executed, if it was.
    pub fn get(&self, op: u8) -> (count: Option<usize>)
        ensures
            count == usage_of(self@, op),
    {
        let mut i: usize = 0;
        assert(self@.skip(0) == self@);
        while i < self.entries.len()
            invariant
                i <= self.entries.len(),
                usage_of(self@, op) == usage_of(self@.skip(i as int), op),
            decreases self.entries.len() - i,
        {
            let entry = self.entries[i];
            assert(self@.skip(i as int)[0] == entry);
            assert(self@.skip(i as int).drop_first() == self@.skip(i + 1));
            if entry.0 == op {
                return Some(entry.1);
            }
            i += 1;
        }
        None
    }

    /// The entries, in ascending order of the opcode's byte.
    pub fn iter(&self) -> (entries: Vec<(u8, usize)>)
        ensures
            entries@ == self@,
    {
        let mut entries: Vec<(u8, usize)> = Vec::new();
        let mut i: usize = 0;
        while i < self.entries.len()
            invariant
                i <= self.entries.len(),
                entries@ == self@.take(i as int),
            decreases self.entries.len() - i,
        {
            entries.push(self.entries[i]);
            i += 1;
            assert(self@.take(i as int) == self@.take(i - 1).push(self@[i - 1]));
        }
        assert(self@.take(i as int) == self@);
        entries
    }
}

/// Counts executed instructions by opcode byte.
pub struct InstructionCounter {
    counts: [usize; 256],
}

impl View for InstructionCounter {
    type V = Seq<usize>;

    closed spec fn view(&self) -> Seq<usize> {
        self.counts@
    }
}

impl InstructionCounter {
    /// A counter with every count at zero.
    pub fn new() -> (counter: InstructionCounter)
        ensures
            counter@.len() == 256,
            forall|i: int| 0 <= i < 256 ==> counter@[i] == 0,
    {
        InstructionCounter { counts: [0usize;256] }
    }

    /// Counts one execution of `op`. A count stops at the largest `usize`.
    pub fn count(&mut self, op: u8)
        ensures
            final(self)@ == old(self)@.update(
                op as int,
                if old(self)@[op as int] < usize::MAX {
                    (old(self)@[op as int] + 1) as usize
                } else {
                    old(self)@[op as int]
                },
            ),
    {
        let index = op as usize;
        let count = self.counts[index];
        if count < usize::MAX {
            self.counts[index] = count + 1;
        }
        assert(final(self)@ =~= old(self)@.update(op as int, self@[op as int]));
    }

    /// Sets every count to zero.
    pub fn reset(&mut self)
        ensures
            final(self)@.len() == 256,
            forall|i: int| 0 <= i < 256 ==> final(self)@[i] == 0,
    {
        self.counts = [0usize;256];
    }

    /// The usage counted so far: the opcodes that were executed, each with its
    /// count. Bytes that are no opcode are left out.
    pub fn read(&self) -> (usage: OpcodeUsage)
        ensures
            usage@ == usage_entries(self@, 256),
    {
        let mut entries: Vec<(u8, usize)> = Vec::new();
        let mut i: usize = 0;
        while i < 256
            invariant
                i <= 256,
                entries@ == usage_entries(self@, i as int),
            decreases 256 - i,
        {
            let count = self.counts[i];
            let byte = i as u8;
            if count > 0 && is_opcode(byte) {
                entries.push((byte, count));
            }
            i += 1;
        }
        OpcodeUsage { entries }
    }
}

/// Exclusive use of a counter: while the guard lives, nothing else counts
/// on it or reads it.
pub struct InstructionCounterGuard<'a> {
    pub counter: &'a mut InstructionCounter,
}

impl InstructionCounter {
    /// Takes the counter for exclusive use. What is done through the guard is
    /// done to the counter.
    pub fn lock(&mut self) -> (guard: InstructionCounterGuard<'_>)
        ensures
            guard.counter@ == old(self)@,
            *final(guard.counter) == *final(self),
    {
        InstructionCounterGuard { counter: self }
    }
}

impl InstructionCounterGuard<'_> {
    /// The usage counted so far.
    pub fn read(&self) -> (usage: OpcodeUsage)
        ensures
            usage@ == usage_entries(old(self.counter)@, 256),
    {
        self.counter.read()
    }

    /// Sets every count to zero.
    pub fn reset(&mut self)
        ensures
            final(self).counter@.len() == 256,
            forall|i: int| 0 <= i < 256 ==> final(self).counter@[i] == 0,
            *final(final(self).counter) == *final(old(self).counter),
    {
        self.counter.reset();
    }
}

} // verus!
