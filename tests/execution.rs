use ssri::dispatch::{Fetched, SOURCE_INPUT, SYS_LOAD_ARGUMENT};
use ssri::engine::{execute, Progress, Session, DEFAULT_MAX_CYCLES};
use ssri::invocation::prepare_context;
use ssri::load::{load_argument, partial_load};
use ssri::model::{Cell, Error, ExecutionContext, ExecutionResult, Locator, Script, Transaction};

fn program(words: &[u32]) -> Vec<u8> {
    let mut out = Vec::new();
    for w in words {
        out.extend_from_slice(&w.to_le_bytes());
    }
    out
}

// addi a0, x0, 0; addi a7, x0, 93; ecall
const EXIT_ZERO: [u32; 3] = [0x00000513, 0x05d00893, 0x00000073];

fn echo_argument_program() -> Vec<u8> {
    program(&[
        0x00001537, // lui a0, 1          buffer at 0x1000
        0x000025b7, // lui a1, 2          length slot at 0x2000
        0x04000293, // addi t0, x0, 64
        0x0055b023, // sd t0, 0(a1)
        0x00000613, // addi a2, x0, 0     offset
        0x00000693, // addi a3, x0, 0     argument index
        0x000018b7, // lui a7, 1
        0x8fd88893, // addi a7, a7, -1795 (load argument)
        0x00000073, // ecall
        0x0005b583, // ld a1, 0(a1)
        0x00001537, // lui a0, 1
        0x000018b7, // lui a7, 1
        0x8fe88893, // addi a7, a7, -1794 (return)
        0x00000073, // ecall
        EXIT_ZERO[0],
        EXIT_ZERO[1],
        EXIT_ZERO[2],
    ])
}

fn empty_script() -> Script {
    Script { code_hash: vec![0u8; 32], hash_type: 1, args: vec![] }
}

fn cell_with(data: Option<Vec<u8>>) -> Cell {
    Cell { capacity: 100, lock: empty_script(), type_script: None, data }
}

fn context(binary: Vec<u8>, args: Vec<Vec<u8>>) -> ExecutionContext {
    ExecutionContext { binary, args, script: None, cell: None, tx: None }
}

#[test]
fn echo_argument_end_to_end() {
    let found = Some(cell_with(Some(echo_argument_program())));
    let ctx = prepare_context(found, vec![vec![0x01, 0x02]], None, None, None).unwrap();
    let r = execute(ctx, vec![], DEFAULT_MAX_CYCLES);
    match r {
        Ok(ExecutionResult::Present(v)) => assert_eq!(v, vec![0x01, 0x02]),
        other => panic!("unexpected {:?}", other),
    }
}

#[test]
fn cell_without_data_is_missing_data() {
    let r = prepare_context(Some(cell_with(None)), vec![], None, None, None);
    assert_eq!(r.unwrap_err(), Error::MissingData);
}

#[test]
fn cell_with_empty_data_is_missing_data() {
    let r = prepare_context(Some(cell_with(Some(vec![]))), vec![], None, None, None);
    assert_eq!(r.unwrap_err(), Error::MissingData);
}

#[test]
fn unknown_locator_is_not_found() {
    let r = prepare_context(None, vec![vec![1]], None, None, None);
    assert_eq!(r.unwrap_err(), Error::NotFound);
}

#[test]
fn overrides_are_kept_verbatim() {
    let script = Script { code_hash: vec![7u8; 32], hash_type: 0, args: vec![9] };
    let ctx = prepare_context(Some(cell_with(Some(vec![1, 2, 3, 4]))), vec![], Some(script), None, None).unwrap();
    assert_eq!(ctx.binary, vec![1, 2, 3, 4]);
    assert_eq!(ctx.script.unwrap().args, vec![9]);
    assert!(ctx.cell.is_none());
    assert!(ctx.tx.is_none());
}

#[test]
fn exit_zero_without_output_is_absent() {
    for args in [vec![], vec![vec![1u8]], vec![vec![1u8], vec![2, 3]]] {
        let r = execute(context(program(&EXIT_ZERO), args), vec![], DEFAULT_MAX_CYCLES);
        assert!(matches!(r, Ok(ExecutionResult::Absent)));
    }
}

#[test]
fn nonzero_exit_is_script_exit() {
    // addi a0, x0, 7; addi a7, x0, 93; ecall
    let r = execute(context(program(&[0x00700513, 0x05d00893, 0x00000073]), vec![]), vec![], DEFAULT_MAX_CYCLES);
    assert_eq!(r.unwrap_err(), Error::ScriptExit(7));
}

#[test]
fn illegal_instruction_is_execution_fault() {
    let mut ctx = context(program(&[0x00000000]), vec![vec![5]]);
    assert_eq!(execute(ctx.clone(), vec![], DEFAULT_MAX_CYCLES).unwrap_err(), Error::ExecutionFault);
    ctx.script = Some(empty_script());
    ctx.cell = Some(cell_with(Some(vec![1])));
    assert_eq!(execute(ctx, vec![], DEFAULT_MAX_CYCLES).unwrap_err(), Error::ExecutionFault);
}

#[test]
fn unknown_syscall_is_execution_fault() {
    // addi a7, x0, 1; ecall
    let r = execute(context(program(&[0x00100893, 0x00000073]), vec![]), vec![], DEFAULT_MAX_CYCLES);
    assert_eq!(r.unwrap_err(), Error::ExecutionFault);
}

#[test]
fn endless_loop_exceeds_resource_limit() {
    // jal x0, 0
    let r = execute(context(program(&[0x0000006f]), vec![]), vec![], 1000);
    assert_eq!(r.unwrap_err(), Error::ResourceLimitExceeded);
}

#[test]
fn running_off_memory_is_execution_fault() {
    // jal x0, -4 from address zero wraps far outside memory
    let r = execute(context(program(&[0xffdff06f]), vec![]), vec![], 1000);
    assert_eq!(r.unwrap_err(), Error::ExecutionFault);
}

#[test]
fn partial_load_past_end_returns_nothing_and_length() {
    let field = vec![1u8, 2, 3, 4, 5];
    let (bytes, total) = partial_load(&field, 5, 10);
    assert!(bytes.is_empty());
    assert_eq!(total, 5);
    let (bytes, total) = partial_load(&field, 9, 0);
    assert!(bytes.is_empty());
    assert_eq!(total, 5);
}

#[test]
fn partial_load_clamps_to_remaining() {
    let field = vec![1u8, 2, 3, 4, 5];
    assert_eq!(partial_load(&field, 1, 2), (vec![2, 3], 5));
    assert_eq!(partial_load(&field, 3, 10), (vec![4, 5], 5));
    assert_eq!(partial_load(&field, 0, 5), (vec![1, 2, 3, 4, 5], 5));
}

#[test]
fn argument_out_of_range_is_empty() {
    let args = vec![vec![1u8, 2], vec![3u8]];
    assert_eq!(load_argument(&args, 2, 0, 10), (vec![], 0));
    assert_eq!(load_argument(&args, 1000, 3, 0), (vec![], 0));
    assert_eq!(load_argument(&args, 0, 1, 10), (vec![2], 2));
    assert_eq!(SYS_LOAD_ARGUMENT, 2301);
}

#[test]
fn missing_argument_in_vm_reports_zero_length() {
    // Loads argument 3 of none, then returns the reported length slot as output.
    let bin = program(&[
        0x00001537, // lui a0, 1
        0x000025b7, // lui a1, 2
        0x04000293, // addi t0, x0, 64
        0x0055b023, // sd t0, 0(a1)
        0x00000613, // addi a2, x0, 0
        0x00300693, // addi a3, x0, 3
        0x000018b7, // lui a7, 1
        0x8fd88893, // addi a7, a7, -1795 (load argument)
        0x00000073, // ecall
        0x00051863, // bne a0, x0, +16 (to the failing exit)
        0x00800593, // addi a1, x0, 8  -> a1 = 8
        0x00002537, // lui a0, 2       -> a0 = 0x2000
        0x0100006f, // jal x0, +16     (to return)
        0x00100513, // addi a0, x0, 1
        0x05d00893, // addi a7, x0, 93
        0x00000073, // ecall
        0x000018b7, // lui a7, 1
        0x8fe88893, // addi a7, a7, -1794 (return)
        0x00000073, // ecall
        EXIT_ZERO[0],
        EXIT_ZERO[1],
        EXIT_ZERO[2],
    ]);
    match execute(context(bin, vec![]), vec![], DEFAULT_MAX_CYCLES) {
        Ok(ExecutionResult::Present(v)) => assert_eq!(v, vec![0u8; 8]),
        other => panic!("unexpected {:?}", other),
    }
}

#[test]
fn input_cell_is_fetched_on_demand() {
    // Loads the data of input cell 0 and returns it.
    let bin = program(&[
        0x00001537, // lui a0, 1
        0x000025b7, // lui a1, 2
        0x04000293, // addi t0, x0, 64
        0x0055b023, // sd t0, 0(a1)
        0x00000613, // addi a2, x0, 0
        0x00000693, // addi a3, x0, 0
        0x00100713, // addi a4, x0, 1 (input)
        0x000018b7, // lui a7, 1
        0x81788893, // addi a7, a7, -2025 (load cell)
        0x00000073, // ecall
        0x0005b583, // ld a1, 0(a1)
        0x00001537, // lui a0, 1
        0x000018b7, // lui a7, 1
        0x8fe88893, // addi a7, a7, -1794 (return)
        0x00000073, // ecall
        EXIT_ZERO[0],
        EXIT_ZERO[1],
        EXIT_ZERO[2],
    ]);
    assert_eq!(SOURCE_INPUT, 1);
    let input = Locator { tx_hash: vec![0xbb; 32], index: 3 };
    let tx = Transaction { inputs: vec![input.clone()], outputs: vec![], witnesses: vec![] };
    let mut ctx = context(bin, vec![]);
    ctx.tx = Some(tx);
    let mut session = Session::start(ctx, DEFAULT_MAX_CYCLES).unwrap();
    let wanted = match session.resume() {
        Progress::NeedCell(l) => l,
        other => panic!("unexpected {:?}", other),
    };
    assert_eq!(wanted.tx_hash, input.tx_hash);
    assert_eq!(wanted.index, 3);
    session.supply(wanted, Some(cell_with(Some(vec![9, 8, 7]))));
    match session.resume() {
        Progress::Done(Ok(ExecutionResult::Present(v))) => assert_eq!(v, vec![9, 8, 7]),
        other => panic!("unexpected {:?}", other),
    }
}

#[test]
fn input_cell_already_known_needs_no_fetch() {
    let input = Locator { tx_hash: vec![0xcc; 32], index: 0 };
    let known = vec![Fetched { locator: input.clone(), cell: None }];
    // load cell data of input 0; then exit with the syscall's return code
    let bin = program(&[
        0x00001537, 0x000025b7, 0x04000293, 0x0055b023, 0x00000613, 0x00000693, 0x00100713,
        0x000018b7, 0x81788893, 0x00000073,
        0x05d00893, // addi a7, x0, 93
        0x00000073, // ecall: exit with a0
    ]);
    let mut ctx = context(bin, vec![]);
    ctx.tx = Some(Transaction { inputs: vec![input], outputs: vec![], witnesses: vec![] });
    assert_eq!(execute(ctx, known, DEFAULT_MAX_CYCLES).unwrap_err(), Error::ScriptExit(2));
}

#[test]
fn oversized_binary_exceeds_memory() {
    let r = execute(context(vec![0u8; 1048577], vec![]), vec![], 10);
    assert_eq!(r.unwrap_err(), Error::ResourceLimitExceeded);
}

#[test]
fn error_descriptions() {
    assert_eq!(Error::MissingData.describe(), "cell doesn't have data");
    assert_eq!(Error::NotFound.describe(), "cell not found");
}

#[test]
fn argument_count_is_in_a0() {
    // addi a7, x0, 93; ecall: exits with a0
    let args = vec![vec![1u8], vec![2u8], vec![3u8]];
    let r = execute(context(program(&[0x05d00893, 0x00000073]), args), vec![], DEFAULT_MAX_CYCLES);
    assert_eq!(r.unwrap_err(), Error::ScriptExit(3));
}

#[test]
fn argument_pointers_follow_argv_layout() {
    let args = vec![vec![42u8, 1], vec![3u8]];
    // ld t0, 0(a1); lbu a0, 0(t0); exit with a0
    let first = program(&[0x0005b283, 0x0002c503, 0x05d00893, 0x00000073]);
    assert_eq!(execute(context(first, args.clone()), vec![], DEFAULT_MAX_CYCLES).unwrap_err(), Error::ScriptExit(42));
    // ld t0, 8(a1); lbu a0, 0(t0); exit with a0
    let second = program(&[0x0085b283, 0x0002c503, 0x05d00893, 0x00000073]);
    assert_eq!(execute(context(second, args.clone()), vec![], DEFAULT_MAX_CYCLES).unwrap_err(), Error::ScriptExit(3));
    // ld t0, 0(a1); lbu a0, 2(t0): the terminating zero byte
    let terminator = program(&[0x0005b283, 0x0022c503, 0x05d00893, 0x00000073]);
    assert!(matches!(execute(context(terminator, args), vec![], DEFAULT_MAX_CYCLES), Ok(ExecutionResult::Absent)));
}

#[test]
fn arguments_too_large_exceed_memory() {
    let r = execute(context(program(&EXIT_ZERO), vec![vec![0u8; 1048576]]), vec![], DEFAULT_MAX_CYCLES);
    assert_eq!(r.unwrap_err(), Error::ResourceLimitExceeded);
}

fn exit_code_of(words: &[u32]) -> Error {
    let mut all = words.to_vec();
    all.push(0x05d00893); // addi a7, x0, 93
    all.push(0x00000073); // ecall
    execute(context(program(&all), vec![]), vec![], DEFAULT_MAX_CYCLES).unwrap_err()
}

#[test]
fn multiply_and_divide() {
    // addi t0, x0, 6; addi t1, x0, 7; mul a0, t0, t1
    assert_eq!(exit_code_of(&[0x00600293, 0x00700313, 0x02628533]), Error::ScriptExit(42));
    // addi t0, x0, 6; divu a0, t0, x0: division by zero gives all ones
    assert_eq!(exit_code_of(&[0x00600293, 0x0202d533]), Error::ScriptExit(u64::MAX));
    // addi t0, x0, -7; addi t1, x0, 2; div a0, t0, t1: rounds toward zero
    assert_eq!(exit_code_of(&[0xff900293, 0x00200313, 0x0262c533]), Error::ScriptExit(0xffff_ffff_ffff_fffd));
    // addi t0, x0, -7; addi t1, x0, 2; rem a0, t0, t1: sign of the dividend
    assert_eq!(exit_code_of(&[0xff900293, 0x00200313, 0x0262e533]), Error::ScriptExit(u64::MAX));
    // addi t0, x0, -1; addi t1, x0, 2; mulhu a0, t0, t1
    assert_eq!(exit_code_of(&[0xfff00293, 0x00200313, 0x0262b533]), Error::ScriptExit(1));
}

#[test]
fn word_arithmetic_sign_extends() {
    // lui t0, 0x80000; addiw t0, t0, -1; addiw a0, t0, 1
    assert_eq!(exit_code_of(&[0x800002b7, 0xfff2829b, 0x0012851b]), Error::ScriptExit(0xffff_ffff_8000_0000));
}

#[test]
fn register_arithmetic() {
    // addi t0, x0, 5; addi t1, x0, 9; sub a0, t0, t1
    assert_eq!(exit_code_of(&[0x00500293, 0x00900313, 0x40628533]), Error::ScriptExit(u64::MAX - 3));
    // addi t0, x0, 1; slli a0, t0, 40
    assert_eq!(exit_code_of(&[0x00100293, 0x02829513]), Error::ScriptExit(1 << 40));
}

fn addi(rd: u32, rs1: u32, imm: i32) -> u32 {
    (((imm as u32) & 0xfff) << 20) | (rs1 << 15) | (rd << 7) | 0x13
}

// Issues load call `number` for (index, source, field) into a 64-byte
// buffer and returns what arrived; a non-zero call result becomes the exit
// code.
fn load_program(number: i32, index: i32, source: i32, field: i32) -> Vec<u8> {
    program(&[
        0x00001537, // lui a0, 1
        0x000025b7, // lui a1, 2
        0x04000293, // addi t0, x0, 64
        0x0055b023, // sd t0, 0(a1)
        0x00000613, // addi a2, x0, 0
        addi(13, 0, index),
        addi(14, 0, source),
        addi(15, 0, field),
        0x000018b7, // lui a7, 1
        addi(17, 17, number - 4096),
        0x00000073, // ecall
        0x02051263, // bne a0, x0, +36
        0x0005b583, // ld a1, 0(a1)
        0x00001537, // lui a0, 1
        0x000018b7, // lui a7, 1
        0x8fe88893, // addi a7, a7, -1794 (return)
        0x00000073, // ecall
        EXIT_ZERO[0],
        EXIT_ZERO[1],
        EXIT_ZERO[2],
        0x05d00893, // addi a7, x0, 93
        0x00000073, // ecall
    ])
}

fn run_load(ctx: ExecutionContext) -> Result<ExecutionResult, Error> {
    execute(ctx, vec![], DEFAULT_MAX_CYCLES)
}

fn present(r: Result<ExecutionResult, Error>) -> Vec<u8> {
    match r {
        Ok(ExecutionResult::Present(v)) => v,
        other => panic!("unexpected {:?}", other),
    }
}

#[test]
fn script_load_uses_the_override() {
    let mut ctx = context(load_program(2052, 0, 0, 0), vec![]);
    ctx.script = Some(Script { code_hash: vec![7u8; 32], hash_type: 1, args: vec![5, 6] });
    let mut expected = vec![7u8; 32];
    expected.extend_from_slice(&[1, 5, 6]);
    assert_eq!(present(run_load(ctx)), expected);
}

#[test]
fn script_load_without_any_source_is_missing() {
    let ctx = context(load_program(2052, 0, 0, 0), vec![]);
    assert_eq!(run_load(ctx).unwrap_err(), Error::ScriptExit(2));
}

#[test]
fn script_load_falls_back_to_first_input_lock() {
    let input = Locator { tx_hash: vec![0x11; 32], index: 1 };
    let mut ctx = context(load_program(2052, 0, 0, 0), vec![]);
    ctx.tx = Some(Transaction { inputs: vec![input], outputs: vec![], witnesses: vec![] });
    let mut session = Session::start(ctx, DEFAULT_MAX_CYCLES).unwrap();
    let wanted = match session.resume() {
        Progress::NeedCell(l) => l,
        other => panic!("unexpected {:?}", other),
    };
    let lock = Script { code_hash: vec![3u8; 32], hash_type: 2, args: vec![8] };
    session.supply(wanted, Some(Cell { capacity: 1, lock, type_script: None, data: None }));
    let mut expected = vec![3u8; 32];
    expected.extend_from_slice(&[2, 8]);
    match session.resume() {
        Progress::Done(r) => assert_eq!(present(r), expected),
        other => panic!("unexpected {:?}", other),
    }
}

#[test]
fn witness_load_and_its_failures() {
    let tx = Transaction { inputs: vec![], outputs: vec![], witnesses: vec![vec![1, 2, 3]] };
    let mut ctx = context(load_program(2074, 0, 0, 0), vec![]);
    ctx.tx = Some(tx.clone());
    assert_eq!(present(run_load(ctx)), vec![1, 2, 3]);
    let mut ctx = context(load_program(2074, 1, 0, 0), vec![]);
    ctx.tx = Some(tx);
    assert_eq!(run_load(ctx).unwrap_err(), Error::ScriptExit(1));
    let ctx = context(load_program(2074, 0, 0, 0), vec![]);
    assert_eq!(run_load(ctx).unwrap_err(), Error::ScriptExit(2));
}

#[test]
fn transaction_load_gives_input_locator() {
    let input = Locator { tx_hash: vec![0xaa; 32], index: 0x0102 };
    let mut ctx = context(load_program(2051, 0, 0, 0), vec![]);
    ctx.tx = Some(Transaction { inputs: vec![input], outputs: vec![], witnesses: vec![] });
    let mut expected = vec![0xaa; 32];
    expected.extend_from_slice(&[0x02, 0x01, 0, 0]);
    assert_eq!(present(run_load(ctx)), expected);
}

#[test]
fn cell_field_loads() {
    let output = Cell { capacity: 0x0102030405, lock: empty_script(), type_script: None, data: Some(vec![4, 4]) };
    let tx = Transaction { inputs: vec![], outputs: vec![output], witnesses: vec![] };
    // capacity of output 0
    let mut ctx = context(load_program(2081, 0, 2, 0), vec![]);
    ctx.tx = Some(tx.clone());
    assert_eq!(present(run_load(ctx)), vec![5, 4, 3, 2, 1, 0, 0, 0]);
    // type script of output 0: absent
    let mut ctx = context(load_program(2081, 0, 2, 2), vec![]);
    ctx.tx = Some(tx.clone());
    assert_eq!(run_load(ctx).unwrap_err(), Error::ScriptExit(2));
    // data of output 0
    let mut ctx = context(load_program(2071, 0, 2, 0), vec![]);
    ctx.tx = Some(tx);
    assert_eq!(present(run_load(ctx)), vec![4, 4]);
    // data of the current cell
    let mut ctx = context(load_program(2071, 0, 3, 0), vec![]);
    ctx.cell = Some(cell_with(Some(vec![6])));
    assert_eq!(present(run_load(ctx)), vec![6]);
    // an unknown field breaks the protocol
    let mut ctx = context(load_program(2081, 0, 3, 9), vec![]);
    ctx.cell = Some(cell_with(Some(vec![6])));
    assert_eq!(run_load(ctx).unwrap_err(), Error::ExecutionFault);
}
