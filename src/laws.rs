use vstd::prelude::*;
use crate::model::{Error, ExecutionContext, Locator};
use crate::dispatch::{Fetched, Reply, lookup, same_locator, resolve, SYS_LOAD_ARGUMENT};
use crate::decode::pow2;
use crate::machine::{MachineView, Effect, StepEnd, execute, fetch_ok, word_at, step, wf_state, answer_load};
use crate::memory::{MEMORY_SIZE, le_value, store_le, write_bytes};
use crate::engine::{RunEnd, run, outcome, initial};
use crate::layout::{layout_fits, lemma_initial_memory_binary};

verus! {

/// An instruction that is not a valid encoding ends the run with an
/// execution fault, whatever the context and the remote answers hold.
pub proof fn lemma_illegal_instruction_faults(s: MachineView, ctx: ExecutionContext, known: Seq<Fetched>, fuel: nat)
    requires
        fetch_ok(s),
        execute(s, word_at(s)) is Trap,
        fuel > 0,
    ensures
        run(s, ctx, known, fuel).0 == RunEnd::Fault,
        outcome(run(s, ctx, known, fuel).0, run(s, ctx, known, fuel).1) == Err::<Option<Seq<u8>>, Error>(Error::ExecutionFault),
{
}

/// The all-zero word is not an instruction.
pub proof fn lemma_zero_word_is_illegal(s: MachineView)
    ensures
        execute(s, 0) is Trap,
{
}

/// A jump to itself (`jal x0, 0`) runs until the instruction ceiling is
/// reached: the run ends with the limit exceeded, the state unchanged and
/// no fuel left.
pub proof fn lemma_self_loop_exhausts_fuel(s: MachineView, ctx: ExecutionContext, known: Seq<Fetched>, fuel: nat)
    requires
        wf_state(s),
        fetch_ok(s),
        word_at(s) == 0x6f,
    ensures
        run(s, ctx, known, fuel) == (RunEnd::LimitExceeded, s, 0nat),
        outcome(RunEnd::LimitExceeded, s) == Err::<Option<Seq<u8>>, Error>(Error::ResourceLimitExceeded),
    decreases fuel,
{
    reveal_with_fuel(pow2, 21);
    if fuel > 0 {
        assert(execute(s, 0x6f) == Effect::Next(s));
        assert(step(s, ctx, known) == (StepEnd::Continue, s));
        lemma_self_loop_exhausts_fuel(s, ctx, known, (fuel - 1) as nat);
    }
}

/// `addi a0, x0, 0; addi a7, x0, 93; ecall`, little-endian: a program that
/// exits at once with code zero and writes no output.
pub open spec fn exit_zero_program() -> Seq<u8> {
    seq![0x13u8, 0x05, 0x00, 0x00, 0x93, 0x08, 0xd0, 0x05, 0x73, 0x00, 0x00, 0x00]
}

proof fn lemma_word_at_initial(ctx: ExecutionContext, pc: u64, w: u32)
    requires
        layout_fits(ctx),
        pc + 4 <= ctx.binary@.len(),
        w == ctx.binary@[pc as int] + 256 * ctx.binary@[pc + 1] + 65536 * ctx.binary@[pc + 2] + 16777216 * ctx.binary@[pc + 3],
    ensures
        forall|s: MachineView| s.pc == pc && s.mem == initial(ctx).mem ==> #[trigger] word_at(s) == w,
{
    reveal_with_fuel(le_value, 5);
    lemma_initial_memory_binary(ctx, pc as int);
    lemma_initial_memory_binary(ctx, pc + 1);
    lemma_initial_memory_binary(ctx, pc + 2);
    lemma_initial_memory_binary(ctx, pc + 3);
    let b = initial(ctx).mem.subrange(pc as int, pc + 4);
    assert(b.drop_first().drop_first().drop_first().drop_first().len() == 0);
}

/// A binary that begins by exiting with code zero, without writing any
/// output, yields no return value, for every context whose arguments fit
/// in memory, whatever the remote answers, with an instruction ceiling of
/// at least three.
pub proof fn lemma_exit_zero_yields_absent(ctx: ExecutionContext, known: Seq<Fetched>, fuel: nat)
    requires
        layout_fits(ctx),
        ctx.binary@.len() >= 12,
        ctx.binary@.subrange(0, 12) == exit_zero_program(),
        fuel >= 3,
    ensures
        run(initial(ctx), ctx, known, fuel).0 == RunEnd::Exited(0),
        outcome(run(initial(ctx), ctx, known, fuel).0, run(initial(ctx), ctx, known, fuel).1) == Ok::<Option<Seq<u8>>, Error>(None),
{
    reveal_with_fuel(pow2, 13);
    let p = exit_zero_program();
    assert(ctx.binary@[0] == p[0] && ctx.binary@[1] == p[1] && ctx.binary@[2] == p[2] && ctx.binary@[3] == p[3]);
    assert(ctx.binary@[4] == p[4] && ctx.binary@[5] == p[5] && ctx.binary@[6] == p[6] && ctx.binary@[7] == p[7]);
    assert(ctx.binary@[8] == p[8] && ctx.binary@[9] == p[9] && ctx.binary@[10] == p[10] && ctx.binary@[11] == p[11]);
    let s0 = initial(ctx);
    lemma_word_at_initial(ctx, 0, 0x513);
    lemma_word_at_initial(ctx, 4, 0x5d00893);
    lemma_word_at_initial(ctx, 8, 0x73);
    let (e1, s1) = step(s0, ctx, known);
    assert(word_at(s0) == 0x513);
    assert(e1 == StepEnd::Continue);
    assert(s1.pc == 4 && s1.mem == s0.mem && s1.regs[10] == 0 && s1.output is None);
    let (e2, s2) = step(s1, ctx, known);
    assert(word_at(s1) == 0x5d00893);
    assert(e2 == StepEnd::Continue);
    assert(s2.pc == 8 && s2.mem == s0.mem && s2.regs[10] == 0 && s2.regs[17] == 93 && s2.output is None);
    let (e3, s3) = step(s2, ctx, known);
    assert(word_at(s2) == 0x73);
    assert(e3 == StepEnd::Exit(0));
    assert(s3 == s2);
    assert(run(s2, ctx, known, (fuel - 2) as nat) == (RunEnd::Exited(0), s2, (fuel - 3) as nat));
    assert(run(s1, ctx, known, (fuel - 1) as nat) == run(s2, ctx, known, (fuel - 2) as nat));
    assert(run(s0, ctx, known, fuel) == run(s1, ctx, known, (fuel - 1) as nat));
}

/// Asking for an argument past the last one is answered with an empty
/// field, never a fault, whatever the window and the rest of the context.
pub proof fn lemma_argument_out_of_range(ctx: ExecutionContext, known: Seq<Fetched>, index: u64, source: u64, field: u64)
    requires
        index >= ctx.args@.len(),
    ensures
        resolve(ctx, known, SYS_LOAD_ARGUMENT, index, source, field) == Reply::Data(Seq::<u8>::empty()),
{
}

/// Once the remote node's answer for a locator is known to a run, it
/// stays the answer: recording another answer for any locator changes
/// nothing that is already known.
pub proof fn lemma_known_answer_is_stable(known: Seq<Fetched>, extra: Fetched, l: Locator)
    requires
        lookup(known, l) is Some,
    ensures
        lookup(known.push(extra), l) == lookup(known, l),
    decreases known.len(),
{
    if known.len() > 0 && !same_locator(known[0].locator, l) {
        assert(known.push(extra).drop_first() =~= known.drop_first().push(extra));
        lemma_known_answer_is_stable(known.drop_first(), extra, l);
    }
}

/// Every run stops within its instruction ceiling: the fuel left never
/// exceeds the fuel given, and a run that uses it all up ends with the
/// limit exceeded.
pub proof fn lemma_run_within_ceiling(s: MachineView, ctx: ExecutionContext, known: Seq<Fetched>, fuel: nat)
    ensures
        run(s, ctx, known, fuel).2 <= fuel,
        run(s, ctx, known, fuel).0 is LimitExceeded ==> run(s, ctx, known, fuel).2 == 0,
    decreases fuel,
{
    if fuel > 0 {
        lemma_run_within_ceiling(step(s, ctx, known).1, ctx, known, (fuel - 1) as nat);
    }
}

/// A load whose offset is at or past the end of its field writes no byte
/// to the buffer, still reports the field's full length in the length
/// slot, and succeeds.
pub proof fn lemma_load_past_end(s: MachineView, data: Seq<u8>)
    requires
        wf_state(s),
        s.regs[11] + 8 <= MEMORY_SIZE,
        s.regs[10] <= MEMORY_SIZE,
        s.regs[12] >= data.len(),
    ensures
        answer_load(s, data).0 == StepEnd::Continue,
        answer_load(s, data).1.mem == store_le(s.mem, s.regs[11] as int, data.len(), 8),
        answer_load(s, data).1.regs[10] == 0,
{
    assert(write_bytes(s.mem, s.regs[10] as int, Seq::<u8>::empty()) =~= s.mem);
}

} // verus!
