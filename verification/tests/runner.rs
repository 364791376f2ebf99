use bytecode_scanner::commands::{
    parse_opcodes, plan_series, worst_case_bytecode, CommandError, Commands, CommonArgs, Job,
    JumpDestCommand, JumpDestCommands, JumpDestFileCommand, JumpDestSqliteCommand,
    JumpDestWorstCaseCommand, Notice, OpcodesCommand, PrecompileCommand, Selection, Series,
    MAX_BYTECODE_LENGTH,
};
use bytecode_scanner::counting::{InstructionCounter, OpcodeUsage};
use bytecode_scanner::opcode::{DELEGATECALL, JUMPDEST, STOP};
use bytecode_scanner::results::{
    contains_byte, jumpdest_case_result, JumpdestResult, OpCodeOrPrecompile, ResultError,
    TestCaseKind, TestRunResult,
};
use std::path::PathBuf;

const ADD: u8 = 0x01;
const MUL: u8 = 0x02;
const POP: u8 = 0x50;

fn common(no_cache: bool) -> CommonArgs {
    CommonArgs { out: PathBuf::from("results.csv"), seed: 42, repeat: 100, no_cache }
}

fn names(list: &[&str]) -> Vec<String> {
    list.iter().map(|name| name.to_string()).collect()
}

#[test]
fn opcode_names_are_parsed_in_order() {
    assert_eq!(parse_opcodes(&names(&["ADD", "MUL", "STOP", "ADD"])), Ok(vec![ADD, MUL, STOP, ADD]));
    assert_eq!(parse_opcodes(&names(&["JUMPDEST", "DELEGATECALL"])), Ok(vec![JUMPDEST, DELEGATECALL]));
    assert_eq!(parse_opcodes(&names(&[])), Ok(vec![]));
}

#[test]
fn unknown_opcode_name_is_refused_at_its_position() {
    assert_eq!(
        parse_opcodes(&names(&["ADD", "NOPE", "ALSO_NOT"])),
        Err(CommandError::UnknownOpcode { position: 1 })
    );
    assert_eq!(parse_opcodes(&names(&["add"])), Err(CommandError::UnknownOpcode { position: 0 }));
}

#[test]
fn opcodes_command_without_names_or_kind_runs_nothing() {
    let command = OpcodesCommand { kind: None, opcodes: vec![], common: common(false) };
    match Commands::Opcodes(command).run() {
        Ok(Job::Idle { notice }) => {
            assert_eq!(notice, Notice::NoOpcodes);
            assert_eq!(
                notice.message(),
                "No opcodes specified and no kind provided, nothing to run."
            );
        }
        other => panic!("{other:?}"),
    }
}

#[test]
fn opcodes_command_with_kind_selects_by_kind() {
    let command = OpcodesCommand {
        kind: Some(TestCaseKind::DynamicSimple),
        opcodes: vec![],
        common: common(false),
    };
    match Commands::Opcodes(command).run() {
        Ok(Job::Opcodes { series }) => {
            assert_eq!(series.out, PathBuf::from("results.csv"));
            assert_eq!(series.seed, 42);
            assert_eq!(series.repeat, 100);
            match series.selection {
                Selection::OfKind { kind, fresh_only } => {
                    assert_eq!(kind, TestCaseKind::DynamicSimple);
                    assert!(fresh_only);
                }
                other => panic!("{other:?}"),
            }
        }
        other => panic!("{other:?}"),
    }
}

#[test]
fn opcodes_command_with_names_selects_them_whatever_the_kind() {
    let command = OpcodesCommand {
        kind: Some(TestCaseKind::ConstantMixed),
        opcodes: names(&["MUL", "ADD"]),
        common: common(true),
    };
    match command.run() {
        Ok(Job::Opcodes { series }) => match series.selection {
            Selection::Opcodes { opcodes } => assert_eq!(opcodes, vec![MUL, ADD]),
            other => panic!("{other:?}"),
        },
        other => panic!("{other:?}"),
    }
}

#[test]
fn opcodes_command_with_unknown_name_is_an_error() {
    let command =
        OpcodesCommand { kind: None, opcodes: names(&["ADD", "BOGUS"]), common: common(false) };
    assert!(matches!(
        Commands::Opcodes(command).run(),
        Err(CommandError::UnknownOpcode { position: 1 })
    ));
}

#[test]
fn precompile_command_plans_its_series() {
    let nothing = PrecompileCommand { kind: None, names: vec![], common: common(false) };
    match Commands::Precompile(nothing).run() {
        Ok(Job::Idle { notice }) => {
            assert_eq!(notice, Notice::NoPrecompiles);
            assert_eq!(
                notice.message(),
                "No precompiles specified and no kind provided, nothing to run."
            );
        }
        other => panic!("{other:?}"),
    }
    let by_kind = PrecompileCommand {
        kind: Some(TestCaseKind::ConstantSimple),
        names: vec![],
        common: common(true),
    };
    match by_kind.run() {
        Job::Precompiles { series } => match series.selection {
            Selection::OfKind { kind, fresh_only } => {
                assert_eq!(kind, TestCaseKind::ConstantSimple);
                assert!(!fresh_only);
            }
            other => panic!("{other:?}"),
        },
        other => panic!("{other:?}"),
    }
    let named = PrecompileCommand {
        kind: None,
        names: names(&["ecrecover", "sha256"]),
        common: common(false),
    };
    match named.run() {
        Job::Precompiles { series } => match series.selection {
            Selection::Names { names: held } => assert_eq!(held, names(&["ecrecover", "sha256"])),
            other => panic!("{other:?}"),
        },
        other => panic!("{other:?}"),
    }
}

#[test]
fn jumpdest_command_plans_by_source() {
    let file = JumpDestCommand {
        command: JumpDestCommands::File(JumpDestFileCommand { path: PathBuf::from("code.bin") }),
    };
    assert!(matches!(
        Commands::JumpDest(file).run(),
        Ok(Job::JumpDestFile { path }) if path == PathBuf::from("code.bin")
    ));
    let table = JumpDestCommand {
        command: JumpDestCommands::Sqlite(JumpDestSqliteCommand {
            path: PathBuf::from("bytecodes.sqlite"),
            out: PathBuf::from("out.csv"),
        }),
    };
    assert!(matches!(
        table.run(),
        Job::JumpDestSqlite { path, out }
            if path == PathBuf::from("bytecodes.sqlite") && out == PathBuf::from("out.csv")
    ));
    let worst = JumpDestCommand {
        command: JumpDestCommands::WorstCase(JumpDestWorstCaseCommand { common_args: common(false) }),
    };
    assert!(matches!(
        worst.run(),
        Job::JumpDestWorstCase { out, limit }
            if out == PathBuf::from("results.csv") && limit == 24_576
    ));
    assert_eq!(MAX_BYTECODE_LENGTH, 24_576);
}

#[test]
fn plan_series_prefers_names_over_kind() {
    let none = plan_series(Selection::Opcodes { opcodes: vec![] }, None, common(false));
    assert!(none.is_none());
    let named = plan_series(
        Selection::Names { names: names(&["modexp"]) },
        Some(TestCaseKind::DynamicMixed),
        common(false),
    )
    .unwrap();
    assert!(matches!(named.selection, Selection::Names { .. }));
}

#[test]
fn selection_by_kind_skips_known_costs_unless_told() {
    let fresh = Selection::OfKind { kind: TestCaseKind::ConstantSimple, fresh_only: true };
    assert!(fresh.admits_opcode(ADD, TestCaseKind::ConstantSimple, false));
    assert!(!fresh.admits_opcode(ADD, TestCaseKind::ConstantSimple, true));
    assert!(!fresh.admits_opcode(ADD, TestCaseKind::DynamicSimple, false));
    assert!(fresh.admits_name("sha256", TestCaseKind::ConstantSimple, false));
    assert!(!fresh.admits_name("sha256", TestCaseKind::ConstantSimple, true));
    let all = Selection::OfKind { kind: TestCaseKind::ConstantSimple, fresh_only: false };
    assert!(all.admits_opcode(ADD, TestCaseKind::ConstantSimple, true));
    assert!(all.admits_name("sha256", TestCaseKind::ConstantSimple, true));
    assert!(!all.admits_name("sha256", TestCaseKind::ConstantMixed, true));
}

#[test]
fn selection_by_name_ignores_kind_and_cost() {
    let opcodes = Selection::Opcodes { opcodes: vec![ADD, MUL] };
    assert!(opcodes.admits_opcode(MUL, TestCaseKind::DynamicMixed, true));
    assert!(!opcodes.admits_opcode(POP, TestCaseKind::DynamicMixed, false));
    assert!(!opcodes.admits_name("ADD", TestCaseKind::DynamicMixed, false));
    let precompiles = Selection::Names { names: names(&["ecrecover", "modexp"]) };
    assert!(precompiles.admits_name("modexp", TestCaseKind::ConstantSimple, true));
    assert!(!precompiles.admits_name("modex", TestCaseKind::ConstantSimple, false));
    assert!(!precompiles.admits_opcode(ADD, TestCaseKind::ConstantSimple, false));
}

#[test]
fn seeds_come_from_the_seed_alone() {
    let series = |seed: u64, repeat: usize| Series {
        selection: Selection::Opcodes { opcodes: vec![ADD] },
        out: PathBuf::from("results.csv"),
        seed,
        repeat,
    };
    assert!(series(42, 100).seeds_fit());
    assert!(!series(42, usize::MAX).seeds_fit());
    let first = series(42, 100).seeds();
    let again = series(42, 100).seeds();
    let shorter = series(42, 10).seeds();
    let other = series(43, 100).seeds();
    assert_eq!(first.len(), 100);
    assert_eq!(first, again);
    assert_eq!(shorter[..], first[..10]);
    assert_ne!(first, other);
    assert_ne!(first[0], 42);
    assert_ne!(first[0], first[1]);
    assert!(series(7, 0).seeds().is_empty());
    assert_eq!(series(42, 10).try_seeds(), Some(shorter));
    assert_eq!(series(42, usize::MAX).try_seeds(), None);
}

#[test]
fn worst_case_is_all_jump_destinations() {
    assert_eq!(worst_case_bytecode(0), Vec::<u8>::new());
    assert_eq!(worst_case_bytecode(3), vec![0x5b, 0x5b, 0x5b]);
    let longest = worst_case_bytecode(MAX_BYTECODE_LENGTH);
    assert_eq!(longest.len(), 24_576);
    assert!(longest.iter().all(|byte| *byte == JUMPDEST));
}

#[test]
fn counter_counts_by_opcode() {
    let mut counter = InstructionCounter::new();
    assert_eq!(counter.read().iter(), vec![]);
    counter.count(ADD);
    counter.count(STOP);
    counter.count(ADD);
    counter.count(0xf4);
    let usage = counter.read();
    assert_eq!(usage.iter(), vec![(STOP, 1), (ADD, 2), (DELEGATECALL, 1)]);
    assert_eq!(usage.get(ADD), Some(2));
    assert_eq!(usage.get(STOP), Some(1));
    assert_eq!(usage.get(MUL), None);
    counter.reset();
    assert_eq!(counter.read().iter(), vec![]);
    assert_eq!(counter.read().get(ADD), None);
}

#[test]
fn guard_works_on_the_counter_it_holds() {
    let mut counter = InstructionCounter::new();
    counter.count(ADD);
    counter.count(POP);
    {
        let mut guard = counter.lock();
        assert_eq!(guard.read().iter(), vec![(ADD, 1), (POP, 1)]);
        guard.reset();
        assert_eq!(guard.read().iter(), vec![]);
    }
    assert_eq!(counter.read().iter(), vec![]);
    counter.count(MUL);
    assert_eq!(counter.lock().read().get(MUL), Some(1));
}

#[test]
fn counter_leaves_out_bytes_that_are_no_opcode() {
    let mut counter = InstructionCounter::new();
    counter.count(0x0c);
    counter.count(0x0c);
    counter.count(0x21);
    counter.count(0xff);
    assert_eq!(counter.read().iter(), vec![(0xff, 1)]);
}

#[test]
fn usage_gives_the_count_of_an_opcode() {
    let usage = OpcodeUsage::from_entries(vec![(STOP, 1), (ADD, 7), (POP, 7)]);
    assert_eq!(usage.get(ADD), Some(7));
    assert_eq!(usage.get(POP), Some(7));
    assert_eq!(usage.get(MUL), None);
    assert_eq!(usage.iter(), vec![(STOP, 1), (ADD, 7), (POP, 7)]);
    assert_eq!(OpcodeUsage::default().get(STOP), None);
}

#[test]
fn names_of_opcodes_and_precompiles() {
    assert_eq!(OpCodeOrPrecompile::OpCode(ADD).as_str(), "ADD");
    assert_eq!(OpCodeOrPrecompile::OpCode(STOP).as_str(), "STOP");
    assert_eq!(OpCodeOrPrecompile::OpCode(JUMPDEST).as_str(), "JUMPDEST");
    assert_eq!(OpCodeOrPrecompile::OpCode(DELEGATECALL).as_str(), "DELEGATECALL");
    assert_eq!(OpCodeOrPrecompile::OpCode(0x0c).as_str(), "Unknown");
    assert_eq!(OpCodeOrPrecompile::Precompile("sha256".to_string()).as_str(), "sha256");
}

#[test]
fn precompile_matches_no_opcode_and_counts_as_delegatecall() {
    let opcode = OpCodeOrPrecompile::OpCode(ADD);
    let precompile = OpCodeOrPrecompile::Precompile("ecrecover".to_string());
    assert!(opcode.matches(ADD));
    assert!(!opcode.matches(MUL));
    assert!(!precompile.matches(ADD));
    assert!(!precompile.matches(DELEGATECALL));
    assert_eq!(opcode.as_opcode(), ADD);
    assert_eq!(precompile.as_opcode(), 0xf4);
}

fn run_result(
    name: OpCodeOrPrecompile,
    kind: TestCaseKind,
    repetition: usize,
    entries: Vec<(u8, usize)>,
) -> TestRunResult {
    TestRunResult {
        name,
        kind,
        repetition,
        input_size: 32,
        baseline_instruction_count: 1_000,
        exec_instruction_count: 1_500,
        opcodes_usage: OpcodeUsage::from_entries(entries),
    }
}

#[test]
fn constant_simple_row_carries_name_and_counts() {
    let result = run_result(
        OpCodeOrPrecompile::OpCode(ADD),
        TestCaseKind::ConstantSimple,
        5,
        vec![(STOP, 1), (ADD, 5)],
    );
    let row = result.to_constant_simple_case_result().unwrap();
    assert_eq!(row.name, "ADD");
    assert_eq!(row.repetition, 5);
    assert_eq!(row.baseline_instruction_count, 1_000);
    assert_eq!(row.exec_instruction_count, 1_500);
    assert_eq!(result.to_dynamic_simple_case_result().unwrap_err(), ResultError::Kind);
}

#[test]
fn dynamic_simple_row_carries_the_input_size() {
    let result = run_result(
        OpCodeOrPrecompile::OpCode(MUL),
        TestCaseKind::DynamicSimple,
        2,
        vec![(STOP, 1), (MUL, 2)],
    );
    let row = result.to_dynamic_simple_case_result().unwrap();
    assert_eq!(row.name, "MUL");
    assert_eq!(row.repetition, 2);
    assert_eq!(row.input_size, 32);
    assert_eq!(row.baseline_instruction_count, 1_000);
    assert_eq!(row.exec_instruction_count, 1_500);
    assert_eq!(result.to_constant_simple_case_result().unwrap_err(), ResultError::Kind);
}

#[test]
fn rows_are_refused_when_a_check_fails() {
    let add = || OpCodeOrPrecompile::OpCode(ADD);
    let kind = TestCaseKind::ConstantSimple;
    let no_stop = run_result(add(), kind, 5, vec![(ADD, 5)]);
    assert_eq!(no_stop.to_constant_simple_case_result().unwrap_err(), ResultError::StopCount);
    assert_eq!(no_stop.sanity_check(), Err(ResultError::StopCount));
    let two_stops = run_result(add(), kind, 5, vec![(STOP, 2), (ADD, 5)]);
    assert_eq!(two_stops.to_constant_simple_case_result().unwrap_err(), ResultError::StopCount);
    let too_few = run_result(add(), kind, 5, vec![(STOP, 1), (ADD, 4)]);
    assert_eq!(too_few.to_constant_simple_case_result().unwrap_err(), ResultError::UsageMismatch);
    assert_eq!(too_few.sanity_check(), Err(ResultError::UsageMismatch));
    let absent = run_result(add(), kind, 5, vec![(STOP, 1)]);
    assert_eq!(absent.to_constant_simple_case_result().unwrap_err(), ResultError::UsageMismatch);
    let none_wanted = run_result(add(), kind, 0, vec![(STOP, 1)]);
    assert!(none_wanted.to_constant_simple_case_result().is_ok());
    let mixed = run_result(add(), kind, 5, vec![(STOP, 1), (ADD, 5), (POP, 5)]);
    assert_eq!(mixed.to_constant_simple_case_result().unwrap_err(), ResultError::ForeignOpcode);
    assert_eq!(mixed.sanity_check(), Ok(()));
    assert!(!mixed.sanity_check_simple());
    assert_eq!(ResultError::StopCount.message(), "STOP should be used exactly once in a case");
    assert_eq!(
        ResultError::ForeignOpcode.message(),
        "simple case should only use desired the opcode"
    );
    assert_eq!(ResultError::UsageMismatch.message(), "Opcode usage mismatch");
}

#[test]
fn precompile_case_is_counted_by_its_calls() {
    let result = run_result(
        OpCodeOrPrecompile::Precompile("sha256".to_string()),
        TestCaseKind::DynamicMixed,
        3,
        vec![(STOP, 1), (POP, 3), (DELEGATECALL, 3)],
    );
    assert_eq!(result.sanity_check(), Ok(()));
    assert!(!result.sanity_check_simple());
    assert_eq!(result.others(), vec![(POP, 3), (DELEGATECALL, 3)]);
    assert!(result.sanity_check_mixed(&vec![DELEGATECALL, POP, ADD]));
    assert!(!result.sanity_check_mixed(&vec![POP]));
    assert!(!result.sanity_check_mixed(&vec![]));
}

#[test]
fn mixed_case_wants_every_other_opcode_modelled() {
    let result = run_result(
        OpCodeOrPrecompile::OpCode(ADD),
        TestCaseKind::ConstantMixed,
        4,
        vec![(STOP, 1), (ADD, 4), (MUL, 2), (POP, 6)],
    );
    assert_eq!(result.others(), vec![(MUL, 2), (POP, 6)]);
    assert!(result.sanity_check_mixed(&vec![MUL, POP]));
    assert!(!result.sanity_check_mixed(&vec![MUL]));
    let simple = run_result(
        OpCodeOrPrecompile::OpCode(ADD),
        TestCaseKind::ConstantMixed,
        4,
        vec![(STOP, 1), (ADD, 4)],
    );
    assert!(simple.sanity_check_mixed(&vec![]));
    assert_eq!(simple.others(), vec![]);
}

#[test]
fn jumpdest_row_reports_the_length() {
    let row = jumpdest_case_result(24_576, 10, 20);
    assert_eq!(row.name, "jumpdest");
    assert_eq!(row.repetition, 1);
    assert_eq!(row.input_size, 24_576);
    assert_eq!(row.baseline_instruction_count, 10);
    assert_eq!(row.exec_instruction_count, 20);
    let plain = JumpdestResult {
        input_size: 1,
        baseline_instruction_count: 2,
        exec_instruction_count: 3,
    };
    let copy = plain;
    assert_eq!(copy.input_size + plain.input_size, 2);
}

#[test]
fn contains_byte_finds_what_is_there() {
    assert!(contains_byte(&vec![1, 2, 3], 2));
    assert!(!contains_byte(&vec![1, 2, 3], 4));
    assert!(!contains_byte(&vec![], 0));
}

#[test]
fn default_kind_is_constant_simple() {
    assert_eq!(TestCaseKind::default(), TestCaseKind::ConstantSimple);
}
