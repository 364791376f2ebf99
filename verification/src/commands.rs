use vstd::prelude::*;
use vstd::string::StringExecFns;
use std::path::PathBuf;
use rand::{Rng, SeedableRng};
use rand_xoshiro::Xoshiro256Plus;
use crate::opcode::{opcode_by_name, opcode_of_name, JUMPDEST};
use crate::results::{contains_byte, TestCaseKind};

verus! {

/// `std::path::PathBuf`: a path of the file system, carried through as it was
/// given.
#[verifier::external_type_specification]
#[verifier::external_body]
pub struct ExPathBuf(PathBuf);

/// The longest bytecode that a contract may have, in bytes.
pub const MAX_BYTECODE_LENGTH: usize = 24_576;

/// What the measuring commands have in common: where the results go, the
/// seed of the series, the number of repetitions, and whether cases with a
/// known cost are measured again.
#[derive(Debug)]
pub struct CommonArgs {
    pub out: PathBuf,
    pub seed: u64,
    pub repeat: usize,
    pub no_cache: bool,
}

/// Measure opcodes: those named, or all of one kind.
#[derive(Debug)]
pub struct OpcodesCommand {
    pub kind: Option<TestCaseKind>,
    pub opcodes: Vec<String>,
    pub common: CommonArgs,
}

/// Measure precompiles: those named, or all of one kind.
#[derive(Debug)]
pub struct PrecompileCommand {
    pub kind: Option<TestCaseKind>,
    pub names: Vec<String>,
    pub common: CommonArgs,
}

/// Measure jump destination analysis.
#[derive(Debug)]
pub struct JumpDestCommand {
    pub command: JumpDestCommands,
}

/// The source of the bytecode to analyze.
#[derive(Debug)]
pub enum JumpDestCommands {
    File(JumpDestFileCommand),
    Sqlite(JumpDestSqliteCommand),
    WorstCase(JumpDestWorstCaseCommand),
}

/// One bytecode, read from a file.
#[derive(Debug)]
pub struct JumpDestFileCommand {
    pub path: PathBuf,
}

/// Every bytecode of a bytecode table.
#[derive(Debug)]
pub struct JumpDestSqliteCommand {
    pub path: PathBuf,
    pub out: PathBuf,
}

/// Bytecode made of jump destinations only, at every length a contract may
/// have.
#[derive(Debug)]
pub struct JumpDestWorstCaseCommand {
    pub common_args: CommonArgs,
}

/// The commands of the measuring program.
#[derive(Debug)]
pub enum Commands {
    Opcodes(OpcodesCommand),
    Precompile(PrecompileCommand),
    JumpDest(JumpDestCommand),
}

/// Which test cases a series runs.
#[derive(Debug)]
pub enum Selection {
    /// Every case of this kind; with `fresh_only`, only those whose cost is
    /// not known yet.
    OfKind { kind: TestCaseKind, fresh_only: bool },
    /// The cases of these opcodes.
    Opcodes { opcodes: Vec<u8> },
    /// The cases of these precompiles.
    Names { names: Vec<String> },
}

/// Whether one of `names` reads `name`.
pub open spec fn names_hold(names: Seq<String>, name: Seq<char>) -> bool {
    exists|i: int| 0 <= i < names.len() && (#[trigger] names[i])@ == name
}

impl Selection {
    pub open spec fn admits_opcode_spec(&self, op: u8, kind: TestCaseKind, known: bool) -> bool {
        match self {
            Selection::OfKind { kind: wanted, fresh_only } => kind == *wanted && !(*fresh_only
                && known),
            Selection::Opcodes { opcodes } => opcodes@.contains(op),
            Selection::Names { .. } => false,
        }
    }

    pub open spec fn admits_name_spec(
        &self,
        name: Seq<char>,
        kind: TestCaseKind,
        known: bool,
    ) -> bool {
        match self {
            Selection::OfKind { kind: wanted, fresh_only } => kind == *wanted && !(*fresh_only
                && known),
            Selection::Opcodes { .. } => false,
            Selection::Names { names } => names_hold(names@, name),
        }
    }

    /// Whether the series runs the cases of opcode `op`, which are of kind
    /// `kind`; `known` says whether the cost of the opcode is known already.
    pub fn admits_opcode(&self, op: u8, kind: TestCaseKind, known: bool) -> (admitted: bool)
        ensures
            admitted == self.admits_opcode_spec(op, kind, known),
    {
        match self {
            Selection::OfKind { kind: wanted, fresh_only } => kind == *wanted && !(*fresh_only
                && known),
            Selection::Opcodes { opcodes } => contains_byte(opcodes, op),
            Selection::Names { .. } => false,
        }
    }

    /// Whether the series runs the cases of the precompile `name`, which are
    /// of kind `kind`; `known` says whether its cost is known already.
    pub fn admits_name(&self, name: &str, kind: TestCaseKind, known: bool) -> (admitted: bool)
        ensures
            admitted == self.admits_name_spec(name@, kind, known),
    {
        match self {
            Selection::OfKind { kind: wanted, fresh_only } => kind == *wanted && !(*fresh_only
                && known),
            Selection::Opcodes { .. } => false,
            Selection::Names { names } => {
                let wanted = String::from_str(name);
                let mut i: usize = 0;
                while i < names.len()
                    invariant
                        i <= names.len(),
                        wanted@ == name@,
                        *self == (Selection::Names { names: *names }),
                        forall|k: int| 0 <= k < i ==> (#[trigger] names@[k])@ != name@,
                    decreases names.len() - i,
                {
                    if names[i] == wanted {
                        assert(names@[i as int]@ == name@);
                        return true;
                    }
                    i += 1;
                }
                false
            },
        }
    }
}

/// A series of measurements: the cases to run, where the results go, the seed
/// from which the seeds of the repetitions come, and their number.
#[derive(Debug)]
pub struct Series {
    pub selection: Selection,
    pub out: PathBuf,
    pub seed: u64,
    pub repeat: usize,
}

/// The seeds that `rand_xoshiro` draws for the repetitions of a series from
/// the seed of the series.
pub uninterp spec fn xoshiro_seeds(seed: u64, count: nat) -> Seq<u64>;

/// `rand_xoshiro::Xoshiro256Plus::seed_from_u64` and `rand::Rng::random_iter`:
/// the first `count` numbers that the generator gives when seeded with
/// `seed`. The generator is a function of its seed alone; the numbers
/// themselves are taken on trust. A count whose numbers no vector can hold is
/// kept out.
#[verifier::external_body]
fn draw_seeds(seed: u64, count: usize) -> (seeds: Vec<u64>)
    requires
        count * 8 <= isize::MAX,
    ensures
        seeds@ == xoshiro_seeds(seed, count as nat),
        seeds@.len() == count,
{
    Xoshiro256Plus::seed_from_u64(seed).random_iter().take(count).collect()
}

impl Series {
    /// Whether a vector can hold one seed for each repetition.
    pub open spec fn fits(&self) -> bool {
        self.repeat * 8 <= isize::MAX
    }

    /// Whether a vector can hold one seed for each repetition.
    pub fn seeds_fit(&self) -> (fit: bool)
        ensures
            fit == self.fits(),
    {
        self.repeat <= isize::MAX as usize / 8
    }

    /// The seeds of the repetitions where a vector can hold them, and nothing
    /// where none can.
    pub fn try_seeds(&self) -> (seeds: Option<Vec<u64>>)
        ensures
            seeds is Some <==> self.fits(),
            seeds matches Some(seeds) ==> seeds@ == xoshiro_seeds(self.seed, self.repeat as nat)
                && seeds@.len() == self.repeat,
    {
        if self.seeds_fit() {
            Some(self.seeds())
        } else {
            None
        }
    }

    /// The seeds of the repetitions, one for each, drawn from the seed of the
    /// series.
    pub fn seeds(&self) -> (seeds: Vec<u64>)
        requires
            self.fits(),
        ensures
            seeds@ == xoshiro_seeds(self.seed, self.repeat as nat),
            seeds@.len() == self.repeat,
    {
        draw_seeds(self.seed, self.repeat)
    }
}

/// What was left out of a command that therefore runs nothing.
#[derive(Clone, Copy, Debug, PartialEq, Eq, Structural)]
pub enum Notice {
    NoOpcodes,
    NoPrecompiles,
}

impl Notice {
    pub open spec fn message_spec(self) -> Seq<char> {
        match self {
            Notice::NoOpcodes => "No opcodes specified and no kind provided, nothing to run."@,
            Notice::NoPrecompiles =>
                "No precompiles specified and no kind provided, nothing to run."@,
        }
    }

    /// The line to print.
    pub fn message(&self) -> (text: &'static str)
        ensures
            text@ == self.message_spec(),
    {
        match self {
            Notice::NoOpcodes => "No opcodes specified and no kind provided, nothing to run.",
            Notice::NoPrecompiles =>
                "No precompiles specified and no kind provided, nothing to run.",
        }
    }
}

/// What a command asks the program to do.
#[derive(Debug)]
pub enum Job {
    /// Print the notice and run nothing.
    Idle { notice: Notice },
    /// Run a series on opcodes.
    Opcodes { series: Series },
    /// Run a series on precompiles.
    Precompiles { series: Series },
    /// Measure the bytecode in the file and print the result.
    JumpDestFile { path: PathBuf },
    /// Measure every bytecode of the table at `path`.
    JumpDestSqlite { path: PathBuf, out: PathBuf },
    /// Measure bytecode of jump destinations at every length below `limit`.
    JumpDestWorstCase { out: PathBuf, limit: usize },
}

/// Why a command cannot be run.
#[derive(Clone, Copy, Debug, PartialEq, Eq, Structural)]
pub enum CommandError {
    /// The name at this position names no opcode.
    UnknownOpcode { position: usize },
}

/// Whether every one of the first `upto` names is the name of an opcode.
pub open spec fn all_known(names: Seq<String>, upto: int) -> bool {
    forall|i: int| 0 <= i < upto ==> opcode_of_name((#[trigger] names[i])@) is Some
}

/// The bytes of the opcodes named, in the order of their names. The first
/// name that names no opcode is an error.
pub fn parse_opcodes(names: &Vec<String>) -> (parsed: Result<Vec<u8>, CommandError>)
    ensures
        match parsed {
            Ok(opcodes) => {
                &&& all_known(names@, names@.len() as int)
                &&& opcodes@.len() == names@.len()
                &&& forall|i: int|
                    0 <= i < names@.len() ==> Some(#[trigger] opcodes@[i]) == opcode_of_name(
                        names@[i]@,
                    )
            },
            Err(CommandError::UnknownOpcode { position }) => {
                &&& position < names@.len()
                &&& all_known(names@, position as int)
                &&& opcode_of_name(names@[position as int]@) is None
            },
        },
{
    let mut opcodes: Vec<u8> = Vec::new();
    let mut i: usize = 0;
    while i < names.len()
        invariant
            i <= names.len(),
            all_known(names@, i as int),
            opcodes@.len() == i,
            forall|k: int|
                0 <= k < i ==> Some(#[trigger] opcodes@[k]) == opcode_of_name(names@[k]@),
        decreases names.len() - i,
    {
        match opcode_by_name(names[i].as_str()) {
            Some(byte) => {
                opcodes.push(byte);
            },
            None => {
                return Err(CommandError::UnknownOpcode { position: i });
            },
        }
        i += 1;
    }
    Ok(opcodes)
}

/// The series of a measuring command, given what it names and the kind it
/// asks for: with nothing named and no kind there is none; with nothing
/// named and a kind it runs every case of that kind, without those of known
/// cost unless `no_cache` is set; with names it runs the cases named,
/// whatever the kind.
pub fn plan_series(named: Selection, kind: Option<TestCaseKind>, common: CommonArgs) -> (series:
    Option<Series>)
    ensures
        series is None <==> nothing_named(named) && kind is None,
        series matches Some(series) ==> {
            &&& series.out == common.out
            &&& series.seed == common.seed
            &&& series.repeat == common.repeat
            &&& series.selection == (if nothing_named(named) {
                Selection::OfKind { kind: kind->0, fresh_only: !common.no_cache }
            } else {
                named
            })
        },
{
    let CommonArgs { out, seed, repeat, no_cache } = common;
    let empty = match &named {
        Selection::Opcodes { opcodes } => opcodes.len() == 0,
        Selection::Names { names } => names.len() == 0,
        Selection::OfKind { .. } => false,
    };
    if empty {
        match kind {
            None => None,
            Some(kind) => Some(
                Series {
                    selection: Selection::OfKind { kind, fresh_only: !no_cache },
                    out,
                    seed,
                    repeat,
                },
            ),
        }
    } else {
        Some(Series { selection: named, out, seed, repeat })
    }
}

/// Whether the selection lists no opcode and no name.
pub open spec fn nothing_named(named: Selection) -> bool {
    match named {
        Selection::Opcodes { opcodes } => opcodes@.len() == 0,
        Selection::Names { names } => names@.len() == 0,
        Selection::OfKind { .. } => false,
    }
}

impl OpcodesCommand {
    /// Whether `job` is what the command asks for: an error for the first
    /// name that names no opcode; else a notice where there are neither
    /// names nor a kind; else a series on the opcodes named, in the order of
    /// their names, or, without names, on every opcode of the kind.
    pub open spec fn asks_for(self, job: Result<Job, CommandError>) -> bool {
        match job {
            Err(CommandError::UnknownOpcode { position }) => {
                &&& position < self.opcodes@.len()
                &&& all_known(self.opcodes@, position as int)
                &&& opcode_of_name(self.opcodes@[position as int]@) is None
            },
            Ok(job) => {
                &&& all_known(self.opcodes@, self.opcodes@.len() as int)
                &&& if self.opcodes@.len() == 0 && self.kind is None {
                    job == (Job::Idle { notice: Notice::NoOpcodes })
                } else {
                    &&& job matches Job::Opcodes { series }
                    &&& series.out == self.common.out
                    &&& series.seed == self.common.seed
                    &&& series.repeat == self.common.repeat
                    &&& if self.opcodes@.len() == 0 {
                        series.selection == (Selection::OfKind {
                            kind: self.kind->0,
                            fresh_only: !self.common.no_cache,
                        })
                    } else {
                        &&& series.selection matches Selection::Opcodes { opcodes }
                        &&& opcodes@.len() == self.opcodes@.len()
                        &&& forall|i: int|
                            0 <= i < opcodes@.len() ==> Some(#[trigger] opcodes@[i])
                                == opcode_of_name(self.opcodes@[i]@)
                    }
                }
            },
        }
    }

    /// The job of the command: a series on the opcodes named, or on all
    /// opcodes of the kind given.
    pub fn run(self) -> (job: Result<Job, CommandError>)
        ensures
            self.asks_for(job),
    {
        let opcodes = match parse_opcodes(&self.opcodes) {
            Ok(opcodes) => opcodes,
            Err(error) => {
                return Err(error);
            },
        };
        match plan_series(Selection::Opcodes { opcodes }, self.kind, self.common) {
            Some(series) => Ok(Job::Opcodes { series }),
            None => Ok(Job::Idle { notice: Notice::NoOpcodes }),
        }
    }
}

impl PrecompileCommand {
    /// What the command asks for: a notice where there are neither names nor
    /// a kind; else a series on the precompiles named or, without names, on
    /// every precompile of the kind.
    pub open spec fn job_spec(self) -> Job {
        if self.names@.len() == 0 && self.kind is None {
            Job::Idle { notice: Notice::NoPrecompiles }
        } else {
            Job::Precompiles {
                series: Series {
                    selection: if self.names@.len() == 0 {
                        Selection::OfKind { kind: self.kind->0, fresh_only: !self.common.no_cache }
                    } else {
                        Selection::Names { names: self.names }
                    },
                    out: self.common.out,
                    seed: self.common.seed,
                    repeat: self.common.repeat,
                },
            }
        }
    }

    /// The job of the command: a series on the precompiles named, or on all
    /// precompiles of the kind given.
    pub fn run(self) -> (job: Job)
        ensures
            job == self.job_spec(),
    {
        match plan_series(Selection::Names { names: self.names }, self.kind, self.common) {
            Some(series) => Job::Precompiles { series },
            None => Job::Idle { notice: Notice::NoPrecompiles },
        }
    }
}

impl JumpDestCommand {
    /// What the command asks for, by the source of the bytecode.
    pub open spec fn job_spec(self) -> Job {
        match self.command {
            JumpDestCommands::File(file) => Job::JumpDestFile { path: file.path },
            JumpDestCommands::Sqlite(table) => Job::JumpDestSqlite {
                path: table.path,
                out: table.out,
            },
            JumpDestCommands::WorstCase(worst) => Job::JumpDestWorstCase {
                out: worst.common_args.out,
                limit: MAX_BYTECODE_LENGTH,
            },
        }
    }

    /// The job of the command, by the source of the bytecode.
    pub fn run(self) -> (job: Job)
        ensures
            job == self.job_spec(),
    {
        match self.command {
            JumpDestCommands::File(file) => Job::JumpDestFile { path: file.path },
            JumpDestCommands::Sqlite(table) => Job::JumpDestSqlite {
                path: table.path,
                out: table.out,
            },
            JumpDestCommands::WorstCase(worst) => Job::JumpDestWorstCase {
                out: worst.common_args.out,
                limit: MAX_BYTECODE_LENGTH,
            },
        }
    }
}

impl Commands {
    /// Whether `job` is what the command asks for. Only a command that names
    /// opcodes can be refused.
    pub open spec fn asks_for(self, job: Result<Job, CommandError>) -> bool {
        match self {
            Commands::Opcodes(command) => command.asks_for(job),
            Commands::Precompile(command) => job == Ok::<Job, CommandError>(command.job_spec()),
            Commands::JumpDest(command) => job == Ok::<Job, CommandError>(command.job_spec()),
        }
    }

    /// The job of the command. Each kind of command decides for itself.
    pub fn run(self) -> (job: Result<Job, CommandError>)
        ensures
            self.asks_for(job),
    {
        match self {
            Commands::Opcodes(command) => command.run(),
            Commands::Precompile(command) => Ok(command.run()),
            Commands::JumpDest(command) => Ok(command.run()),
        }
    }
}

/// The worst case for jump destination analysis at `len` bytes: bytecode in
/// which every byte is a jump destination.
pub fn worst_case_bytecode(len: usize) -> (code: Vec<u8>)
    ensures
        code@.len() == len,
        forall|i: int| 0 <= i < len ==> code@[i] == JUMPDEST,
{
    let mut code: Vec<u8> = Vec::new();
    let mut i: usize = 0;
    while i < len
        invariant
            i <= len,
            code@.len() == i,
            forall|k: int| 0 <= k < i ==> code@[k] == JUMPDEST,
        decreases len - i,
    {
        code.push(JUMPDEST);
        i += 1;
    }
    code
}

} // verus!
