use vstd::prelude::*;
use crate::counting::{usage_of, OpcodeUsage};
use crate::opcode::{name_of_opcode, opcode_name, DELEGATECALL, STOP};

verus! {

/// What a test case measures and how its input varies.
#[derive(Clone, Copy, Debug, Default, PartialEq, Eq, Hash, Structural)]
pub enum TestCaseKind {
    /// Only the desired opcode, with one fixed input size.
    #[default]
    ConstantSimple,
    /// The desired opcode among others, with one fixed input size.
    ConstantMixed,
    /// Only the desired opcode, with several input sizes.
    DynamicSimple,
    /// The desired opcode among others, with several input sizes.
    DynamicMixed,
}

/// What a test case is about: an opcode, by its byte, or a precompile, by its
/// name.
#[derive(Clone, Debug, PartialEq, Eq, Hash)]
pub enum OpCodeOrPrecompile {
    OpCode(u8),
    Precompile(String),
}

impl OpCodeOrPrecompile {
    pub open spec fn name_spec(&self) -> Seq<char> {
        match self {
            OpCodeOrPrecompile::OpCode(op) => opcode_name(*op),
            OpCodeOrPrecompile::Precompile(name) => name@,
        }
    }

    pub open spec fn matches_spec(&self, op: u8) -> bool {
        match self {
            OpCodeOrPrecompile::OpCode(own) => *own == op,
            OpCodeOrPrecompile::Precompile(_) => false,
        }
    }

    pub open spec fn opcode_spec(&self) -> u8 {
        match self {
            OpCodeOrPrecompile::OpCode(op) => *op,
            OpCodeOrPrecompile::Precompile(_) => DELEGATECALL,
        }
    }

    /// The name of the opcode or of the precompile.
    pub fn as_str(&self) -> (name: &str)
        ensures
            name@ == self.name_spec(),
    {
        match self {
            OpCodeOrPrecompile::OpCode(op) => name_of_opcode(*op),
            OpCodeOrPrecompile::Precompile(name) => name.as_str(),
        }
    }

    /// Whether this is the opcode `op`. A precompile is no opcode.
    pub fn matches(&self, op: u8) -> (same: bool)
        ensures
            same == self.matches_spec(op),
    {
        match self {
            OpCodeOrPrecompile::OpCode(own) => *own == op,
            OpCodeOrPrecompile::Precompile(_) => false,
        }
    }

    /// The opcode under which executions are counted: the opcode itself, and
    /// for a precompile the call that reaches it.
    pub fn as_opcode(&self) -> (op: u8)
        ensures
            op == self.opcode_spec(),
    {
        match self {
            OpCodeOrPrecompile::OpCode(op) => *op,
            OpCodeOrPrecompile::Precompile(_) => DELEGATECALL,
        }
    }
}

/// A measurement of the cost of jump destination analysis.
#[derive(Clone, Copy, Debug)]
pub struct JumpdestResult {
    pub input_size: usize,
    pub baseline_instruction_count: u64,
    pub exec_instruction_count: u64,
}

/// The result row of a case of kind `ConstantSimple`.
#[derive(Debug)]
pub struct ConstantSimpleCaseResult<'a> {
    pub name: &'a str,
    pub repetition: usize,
    pub baseline_instruction_count: u64,
    pub exec_instruction_count: u64,
}

/// The result row of a case of kind `DynamicSimple`.
#[derive(Debug)]
pub struct DynamicSimpleCaseResult<'a> {
    pub name: &'a str,
    pub repetition: usize,
    pub input_size: usize,
    pub baseline_instruction_count: u64,
    pub exec_instruction_count: u64,
}

/// Why a run gives no result row.
#[derive(Clone, Copy, Debug, PartialEq, Eq, Structural)]
pub enum ResultError {
    /// The case is not of the kind that the row is for.
    Kind,
    /// `STOP` was not executed exactly once.
    StopCount,
    /// The desired opcode was not executed as often as the case repeats it.
    UsageMismatch,
    /// A simple case executed an opcode other than the desired one.
    ForeignOpcode,
}

impl ResultError {
    pub open spec fn message_spec(self) -> Seq<char> {
        match self {
            ResultError::Kind => "test case is of another kind"@,
            ResultError::StopCount => "STOP should be used exactly once in a case"@,
            ResultError::UsageMismatch => "Opcode usage mismatch"@,
            ResultError::ForeignOpcode => "simple case should only use desired the opcode"@,
        }
    }

    /// The line reported with the error.
    pub fn message(&self) -> (text: &'static str)
        ensures
            text@ == self.message_spec(),
    {
        match self {
            ResultError::Kind => "test case is of another kind",
            ResultError::StopCount => "STOP should be used exactly once in a case",
            ResultError::UsageMismatch => "Opcode usage mismatch",
            ResultError::ForeignOpcode => "simple case should only use desired the opcode",
        }
    }
}

/// The outcome of running one test case: what it was about, the instruction
/// counts of the baseline run and of the run proper, and the opcodes that the
/// case executed.
#[derive(Debug)]
pub struct TestRunResult {
    pub name: OpCodeOrPrecompile,
    pub kind: TestCaseKind,
    pub repetition: usize,
    pub input_size: usize,
    pub baseline_instruction_count: u64,
    pub exec_instruction_count: u64,
    pub opcodes_usage: OpcodeUsage,
}

/// Whether the entry is for an opcode other than the desired one and `STOP`.
pub open spec fn is_foreign(name: OpCodeOrPrecompile, entry: (u8, usize)) -> bool {
    !name.matches_spec(entry.0) && entry.0 != STOP
}

/// The entries for opcodes other than the desired one and `STOP`, in order.
pub open spec fn foreign_entries(name: OpCodeOrPrecompile, entries: Seq<(u8, usize)>) -> Seq<
    (u8, usize),
>
    decreases entries.len(),
{
    if entries.len() == 0 {
        Seq::empty()
    } else {
        let before = foreign_entries(name, entries.drop_last());
        if is_foreign(name, entries.last()) {
            before.push(entries.last())
        } else {
            before
        }
    }
}

impl TestRunResult {
    /// `STOP` was executed exactly once.
    pub open spec fn stops_once(&self) -> bool {
        usage_of(self.opcodes_usage@, STOP) == Some(1usize)
    }

    /// The desired opcode was executed as often as the case repeats it.
    pub open spec fn usage_matches(&self) -> bool {
        self.repetition == match usage_of(self.opcodes_usage@, self.name.opcode_spec()) {
            Some(count) => count,
            None => 0,
        }
    }

    /// No opcode other than the desired one and `STOP` was executed.
    pub open spec fn is_simple(&self) -> bool {
        forall|i: int|
            0 <= i < self.opcodes_usage@.len() ==> !is_foreign(
                self.name,
                #[trigger] self.opcodes_usage@[i],
            )
    }

    /// Every opcode executed besides the desired one and `STOP` is among
    /// `modelled`.
    pub open spec fn is_mixed_within(&self, modelled: Seq<u8>) -> bool {
        forall|i: int|
            0 <= i < self.opcodes_usage@.len() && is_foreign(
                self.name,
                #[trigger] self.opcodes_usage@[i],
            ) ==> modelled.contains(self.opcodes_usage@[i].0)
    }

    /// Checks that hold of every case: `STOP` exactly once, and the desired
    /// opcode as often as the case repeats it.
    pub fn sanity_check(&self) -> (outcome: Result<(), ResultError>)
        ensures
            outcome == (if !self.stops_once() {
                Err::<(), ResultError>(ResultError::StopCount)
            } else if !self.usage_matches() {
                Err(ResultError::UsageMismatch)
            } else {
                Ok(())
            }),
    {
        match self.opcodes_usage.get(STOP) {
            Some(count) => {
                if count != 1 {
                    return Err(ResultError::StopCount);
                }
            },
            None => {
                return Err(ResultError::StopCount);
            },
        }
        let used = match self.opcodes_usage.get(self.name.as_opcode()) {
            Some(count) => count,
            None => 0,
        };
        if used != self.repetition {
            return Err(ResultError::UsageMismatch);
        }
        Ok(())
    }

    /// The entries for opcodes other than the desired one and `STOP`.
    pub fn others(&self) -> (entries: Vec<(u8, usize)>)
        ensures
            entries@ == foreign_entries(self.name, self.opcodes_usage@),
    {
        let all = self.opcodes_usage.iter();
        let mut entries: Vec<(u8, usize)> = Vec::new();
        let mut i: usize = 0;
        while i < all.len()
            invariant
                i <= all.len(),
                all@ == self.opcodes_usage@,
                entries@ == foreign_entries(self.name, all@.take(i as int)),
            decreases all.len() - i,
        {
            let entry = all[i];
            assert(all@.take(i + 1).drop_last() == all@.take(i as int));
            assert(all@.take(i + 1).last() == entry);
            if !self.name.matches(entry.0) && entry.0 != STOP {
                entries.push(entry);
            }
            i += 1;
        }
        assert(all@.take(i as int) == all@);
        entries
    }

    /// Whether the case executed nothing but the desired opcode and `STOP`.
    pub fn sanity_check_simple(&self) -> (simple: bool)
        ensures
            simple == self.is_simple(),
    {
        let all = self.opcodes_usage.iter();
        let mut i: usize = 0;
        while i < all.len()
            invariant
                i <= all.len(),
                all@ == self.opcodes_usage@,
                forall|k: int| 0 <= k < i ==> !is_foreign(self.name, #[trigger] all@[k]),
            decreases all.len() - i,
        {
            let entry = all[i];
            if !self.name.matches(entry.0) && entry.0 != STOP {
                assert(is_foreign(self.name, self.opcodes_usage@[i as int]));
                return false;
            }
            i += 1;
        }
        true
    }

    /// Whether every opcode that the case executed besides the desired one
    /// and `STOP` is among `modelled`, the opcodes whose cost is known.
    pub fn sanity_check_mixed(&self, modelled: &Vec<u8>) -> (within: bool)
        ensures
            within == self.is_mixed_within(modelled@),
    {
        let all = self.opcodes_usage.iter();
        let mut i: usize = 0;
        while i < all.len()
            invariant
                i <= all.len(),
                all@ == self.opcodes_usage@,
                forall|k: int|
                    0 <= k < i && is_foreign(self.name, #[trigger] all@[k]) ==> modelled@.contains(
                        all@[k].0,
                    ),
            decreases all.len() - i,
        {
            let entry = all[i];
            if !self.name.matches(entry.0) && entry.0 != STOP && !contains_byte(modelled, entry.0) {
                assert(is_foreign(self.name, self.opcodes_usage@[i as int]));
                return false;
            }
            i += 1;
        }
        true
    }

    /// The result row of a case of kind `ConstantSimple`: for a case of that
    /// kind that passes the checks, the name, the repetition and both counts.
    pub fn to_constant_simple_case_result(&self) -> (row: Result<
        ConstantSimpleCaseResult<'_>,
        ResultError,
    >)
        ensures
            match row {
                Ok(row) => {
                    &&& self.kind == TestCaseKind::ConstantSimple
                    &&& self.stops_once()
                    &&& self.usage_matches()
                    &&& self.is_simple()
                    &&& row.name@ == self.name.name_spec()
                    &&& row.repetition == self.repetition
                    &&& row.baseline_instruction_count == self.baseline_instruction_count
                    &&& row.exec_instruction_count == self.exec_instruction_count
                },
                Err(error) => error == self.simple_case_error(TestCaseKind::ConstantSimple)->0,
            },
            row is Err <==> self.simple_case_error(TestCaseKind::ConstantSimple) is Some,
    {
        if self.kind != TestCaseKind::ConstantSimple {
            return Err(ResultError::Kind);
        }
        match self.sanity_check() {
            Err(error) => {
                return Err(error);
            },
            Ok(_) => {},
        }
        if !self.sanity_check_simple() {
            return Err(ResultError::ForeignOpcode);
        }
        Ok(
            ConstantSimpleCaseResult {
                name: self.name.as_str(),
                repetition: self.repetition,
                baseline_instruction_count: self.baseline_instruction_count,
                exec_instruction_count: self.exec_instruction_count,
            },
        )
    }

    /// The result row of a case of kind `DynamicSimple`: for a case of that
    /// kind that passes the checks, the name, the repetition, the input size
    /// and both counts.
    pub fn to_dynamic_simple_case_result(&self) -> (row: Result<
        DynamicSimpleCaseResult<'_>,
        ResultError,
    >)
        ensures
            match row {
                Ok(row) => {
                    &&& self.kind == TestCaseKind::DynamicSimple
                    &&& self.stops_once()
                    &&& self.usage_matches()
                    &&& self.is_simple()
                    &&& row.name@ == self.name.name_spec()
                    &&& row.repetition == self.repetition
                    &&& row.input_size == self.input_size
                    &&& row.baseline_instruction_count == self.baseline_instruction_count
                    &&& row.exec_instruction_count == self.exec_instruction_count
                },
                Err(error) => error == self.simple_case_error(TestCaseKind::DynamicSimple)->0,
            },
            row is Err <==> self.simple_case_error(TestCaseKind::DynamicSimple) is Some,
    {
        if self.kind != TestCaseKind::DynamicSimple {
            return Err(ResultError::Kind);
        }
        match self.sanity_check() {
            Err(error) => {
                return Err(error);
            },
            Ok(_) => {},
        }
        if !self.sanity_check_simple() {
            return Err(ResultError::ForeignOpcode);
        }
        Ok(
            DynamicSimpleCaseResult {
                name: self.name.as_str(),
                repetition: self.repetition,
                input_size: self.input_size,
                baseline_instruction_count: self.baseline_instruction_count,
                exec_instruction_count: self.exec_instruction_count,
            },
        )
    }

    /// What keeps the run from giving the row of a simple case of kind
    /// `kind`, the first check that fails counting.
    pub open spec fn simple_case_error(&self, kind: TestCaseKind) -> Option<ResultError> {
        if self.kind != kind {
            Some(ResultError::Kind)
        } else if !self.stops_once() {
            Some(ResultError::StopCount)
        } else if !self.usage_matches() {
            Some(ResultError::UsageMismatch)
        } else if !self.is_simple() {
            Some(ResultError::ForeignOpcode)
        } else {
            None
        }
    }
}

/// Whether `bytes` holds `byte`.
pub fn contains_byte(bytes: &Vec<u8>, byte: u8) -> (found: bool)
    ensures
        found == bytes@.contains(byte),
{
    let mut i: usize = 0;
    while i < bytes.len()
        invariant
            i <= bytes.len(),
            forall|k: int| 0 <= k < i ==> bytes@[k] != byte,
        decreases bytes.len() - i,
    {
        if bytes[i] == byte {
            return true;
        }
        i += 1;
    }
    false
}

/// The result row of a measurement of jump destination analysis on a
/// bytecode of `input_size` bytes.
pub fn jumpdest_case_result(input_size: usize, baseline: u64, exec: u64) -> (row:
    DynamicSimpleCaseResult<'static>)
    ensures
        row.name@ == "jumpdest"@,
        row.repetition == 1,
        row.input_size == input_size,
        row.baseline_instruction_count == baseline,
        row.exec_instruction_count == exec,
{
    DynamicSimpleCaseResult {
        name: "jumpdest",
        repetition: 1,
        input_size,
        baseline_instruction_count: baseline,
        exec_instruction_count: exec,
    }
}

} // verus!
