use vstd::prelude::*;
use crate::model::{Cell, Error, ExecutionContext, ExecutionResult, Locator};
use crate::dispatch::Fetched;
use crate::machine::{Machine, MachineView, Stop, StepEnd, step, wf_state};
use crate::memory::{MEMORY_SIZE, write_le, copy_in};
use crate::layout::{arg_blob, arg_values, data_start, table_start, layout_fits, initial_memory, write_table, lemma_arg_blob_prefix, lemma_arg_blob_grows};

verus! {

/// Instruction ceiling of a run unless the caller picks another.
pub const DEFAULT_MAX_CYCLES: u64 = 10000000;

/// How a run ended, for contracts.
pub enum RunEnd {
    Exited(u64),
    Fault,
    LimitExceeded,
    /// Waiting for the cell at this locator (hash, index).
    Suspended(Seq<u8>, u32),
}

/// Runs at most `fuel` instructions; a step that waits for a remote cell
/// uses none. Returns how the run ended, the state, and the fuel left.
pub open spec fn run(s: MachineView, ctx: ExecutionContext, known: Seq<Fetched>, fuel: nat) -> (RunEnd, MachineView, nat)
    decreases fuel,
{
    if fuel == 0 {
        (RunEnd::LimitExceeded, s, 0)
    } else {
        let (e, t) = step(s, ctx, known);
        match e {
            StepEnd::Continue => run(t, ctx, known, (fuel - 1) as nat),
            StepEnd::Exit(c) => (RunEnd::Exited(c), t, (fuel - 1) as nat),
            StepEnd::Fault => (RunEnd::Fault, t, (fuel - 1) as nat),
            StepEnd::Fetch(h, i) => (RunEnd::Suspended(h, i), t, fuel),
        }
    }
}

/// What a finished run means to the caller.
pub open spec fn outcome(end: RunEnd, s: MachineView) -> Result<Option<Seq<u8>>, Error> {
    match end {
        RunEnd::Exited(c) => if c == 0 { Ok(s.output) } else { Err(Error::ScriptExit(c)) },
        RunEnd::Fault => Err(Error::ExecutionFault),
        RunEnd::LimitExceeded => Err(Error::ResourceLimitExceeded),
        RunEnd::Suspended(_, _) => Err(Error::ContextUnavailable),
    }
}

/// The state a run starts in: memory as `initial_memory` lays it out, the
/// stack pointer and `a1` at the table of argument pointers, the argument
/// count in `a0`, the program counter at zero and no output.
pub open spec fn initial(ctx: ExecutionContext) -> MachineView {
    let t = table_start(arg_values(ctx)) as u64;
    MachineView {
        regs: Seq::new(32, |i: int| if i == 2 || i == 11 { t } else if i == 10 { ctx.args@.len() as u64 } else { 0u64 }),
        pc: 0,
        mem: initial_memory(ctx),
        output: None,
    }
}

/// Whether a result handed to the caller is the one `expected` describes.
pub open spec fn result_is(r: Result<ExecutionResult, Error>, expected: Result<Option<Seq<u8>>, Error>) -> bool {
    match (r, expected) {
        (Ok(ExecutionResult::Present(v)), Ok(Some(o))) => v@ == o,
        (Ok(ExecutionResult::Absent), Ok(None)) => true,
        (Err(e), Err(f)) => e == f,
        _ => false,
    }
}

impl Machine {
    /// Lays out the binary and arguments of `ctx` in a fresh machine; where
    /// they do not fit, the memory ceiling is exceeded.
    pub fn load(ctx: &ExecutionContext) -> (r: Result<Machine, Error>)
        ensures
            !layout_fits(*ctx) ==> r == Err::<Machine, Error>(Error::ResourceLimitExceeded),
            layout_fits(*ctx) ==> r is Ok && r->Ok_0@ == initial(*ctx) && r->Ok_0.wf(),
    {
        let ghost args = arg_values(*ctx);
        let argc: usize = ctx.args.len();
        let mut blob: Vec<u8> = Vec::new();
        let mut offsets: Vec<u64> = Vec::new();
        let mut k: usize = 0;
        assert(args.subrange(0, 0) =~= Seq::<Seq<u8>>::empty());
        while k < argc
            invariant
                k <= argc == args.len() == ctx.args@.len(),
                args == arg_values(*ctx),
                blob@ == arg_blob(args.subrange(0, k as int)),
                blob@.len() <= MEMORY_SIZE,
                offsets@.len() == k,
                forall|j: int| 0 <= j < k ==> #[trigger] offsets@[j] == arg_blob(args.subrange(0, j)).len(),
            decreases argc - k,
        {
            proof {
                lemma_arg_blob_prefix(args, k as int);
                assert(args[k as int] == ctx.args@[k as int]@);
            }
            if ctx.args[k].len() >= MEMORY_SIZE - blob.len() {
                proof {
                    lemma_arg_blob_grows(args, k + 1);
                }
                return Err(Error::ResourceLimitExceeded);
            }
            offsets.push(blob.len() as u64);
            crate::encode::append_all(&mut blob, &ctx.args[k]);
            blob.push(0);
            k = k + 1;
            assert(blob@ =~= arg_blob(args.subrange(0, k as int)));
        }
        assert(args.subrange(0, argc as int) =~= args);
        proof {
            lemma_arg_blob_grows(args, 0);
        }
        let data: usize = MEMORY_SIZE - blob.len();
        let aligned: usize = (data / 8) * 8;
        if aligned < 8 * argc || aligned - 8 * argc < ctx.binary.len() {
            return Err(Error::ResourceLimitExceeded);
        }
        let table: usize = aligned - 8 * argc;
        let size: usize = ctx.binary.len();
        let mut memory: Vec<u8> = Vec::new();
        let mut i: usize = 0;
        while i < size
            invariant
                i <= size == ctx.binary@.len() <= MEMORY_SIZE,
                memory@ == ctx.binary@.subrange(0, i as int),
            decreases size - i,
        {
            memory.push(ctx.binary[i]);
            i = i + 1;
            assert(memory@ =~= ctx.binary@.subrange(0, i as int));
        }
        while i < MEMORY_SIZE
            invariant
                size <= i <= MEMORY_SIZE,
                size == ctx.binary@.len(),
                memory@.len() == i,
                forall|j: int| 0 <= j < size ==> memory@[j] == ctx.binary@[j],
                forall|j: int| size <= j < i ==> memory@[j] == 0u8,
            decreases MEMORY_SIZE - i,
        {
            memory.push(0);
            i = i + 1;
        }
        let ghost base = ctx.binary@ + Seq::new((MEMORY_SIZE - ctx.binary@.len()) as nat, |i: int| 0u8);
        assert(memory@ =~= base);
        let mut k: usize = 0;
        while k < argc
            invariant
                k <= argc == args.len(),
                table + 8 * argc <= aligned <= data <= MEMORY_SIZE,
                data == data_start(args),
                table == table_start(args),
                data + blob@.len() == MEMORY_SIZE,
                offsets@.len() == argc,
                forall|j: int| 0 <= j < argc ==> #[trigger] offsets@[j] == arg_blob(args.subrange(0, j)).len(),
                memory@ == write_table(base, table as int, args, k as nat),
                memory@.len() == MEMORY_SIZE,
            decreases argc - k,
        {
            proof {
                lemma_arg_blob_grows(args, k as int);
            }
            write_le(&mut memory, table + 8 * k, data as u64 + offsets[k], 8);
            k = k + 1;
        }
        copy_in(&mut memory, data, &blob);
        let mut regs: Vec<u64> = Vec::new();
        let mut r: usize = 0;
        while r < 32
            invariant
                r <= 32,
                argc == ctx.args@.len(),
                regs@.len() == r,
                forall|j: int| 0 <= j < r ==> #[trigger] regs@[j] == (if j == 2 || j == 11 { table as u64 } else if j == 10 { argc as u64 } else { 0u64 }),
            decreases 32 - r,
        {
            regs.push(if r == 2 || r == 11 { table as u64 } else if r == 10 { argc as u64 } else { 0 });
            r = r + 1;
        }
        let m = Machine { regs, pc: 0, memory, output: None };
        assert(m@.regs =~= initial(*ctx).regs);
        Ok(m)
    }

    /// Runs at most `fuel` instructions. Returns how the run ended (a
    /// suspension carries the locator whose cell is needed) and the fuel
    /// left.
    pub fn run(&mut self, ctx: &ExecutionContext, known: &Vec<Fetched>, fuel: u64) -> (r: (Stop, u64))
        requires
            old(self).wf(),
        ensures
            final(self).wf(),
            ({
                let (end, s, left) = run(old(self)@, *ctx, known@, fuel as nat);
                &&& final(self)@ == s
                &&& r.1 == left
                &&& match end {
                    RunEnd::Exited(c) => r.0 == Stop::Exit(c),
                    RunEnd::Fault => r.0 == Stop::Fault,
                    RunEnd::LimitExceeded => r.0 == Stop::Continue,
                    RunEnd::Suspended(h, i) => r.0.end() == StepEnd::Fetch(h, i),
                }
            }),
    {
        let mut left = fuel;
        loop
            invariant
                self.wf(),
                run(old(self)@, *ctx, known@, fuel as nat) == run(self@, *ctx, known@, left as nat),
            decreases left,
        {
            if left == 0 {
                return (Stop::Continue, 0);
            }
            match self.step(ctx, known) {
                Stop::Continue => {
                    left = left - 1;
                },
                Stop::Exit(c) => {
                    return (Stop::Exit(c), left - 1);
                },
                Stop::Fault => {
                    return (Stop::Fault, left - 1);
                },
                Stop::Fetch(l) => {
                    return (Stop::Fetch(l), left);
                },
            }
        }
    }
}

/// One invocation in progress: its machine, its context, the cells the
/// remote node has supplied so far, and the instructions it may still run.
pub struct Session {
    pub machine: Machine,
    pub ctx: ExecutionContext,
    pub known: Vec<Fetched>,
    pub fuel: u64,
}

/// Where an invocation stands after it has run as far as it can.
#[derive(Debug)]
pub enum Progress {
    /// Finished with this result.
    Done(Result<ExecutionResult, Error>),
    /// Waiting for the cell at this locator from the remote node.
    NeedCell(Locator),
}

impl Session {
    pub open spec fn wf(&self) -> bool {
        self.machine.wf()
    }

    /// Starts an invocation of `ctx` that may run `max_cycles` instructions.
    pub fn start(ctx: ExecutionContext, max_cycles: u64) -> (r: Result<Session, Error>)
        ensures
            !layout_fits(ctx) ==> r == Err::<Session, Error>(Error::ResourceLimitExceeded),
            layout_fits(ctx) ==> r is Ok && ({
                let t = r->Ok_0;
                &&& t.wf()
                &&& t.machine@ == initial(ctx)
                &&& t.ctx == ctx
                &&& t.known@.len() == 0
                &&& t.fuel == max_cycles
            }),
    {
        match Machine::load(&ctx) {
            Ok(machine) => Ok(Session { machine, ctx, known: Vec::new(), fuel: max_cycles }),
            Err(e) => Err(e),
        }
    }

    /// Runs until the invocation finishes or needs a cell from the remote
    /// node.
    pub fn resume(&mut self) -> (r: Progress)
        requires
            old(self).wf(),
        ensures
            final(self).wf(),
            final(self).ctx == old(self).ctx,
            final(self).known == old(self).known,
            ({
                let (end, s, left) = run(old(self).machine@, old(self).ctx, old(self).known@, old(self).fuel as nat);
                &&& final(self).machine@ == s
                &&& final(self).fuel == left
                &&& match end {
                    RunEnd::Suspended(h, i) => r is NeedCell && r->NeedCell_0.tx_hash@ == h && r->NeedCell_0.index == i,
                    _ => r is Done && result_is(r->Done_0, outcome(end, s)),
                }
            }),
    {
        let (stop, left) = self.machine.run(&self.ctx, &self.known, self.fuel);
        self.fuel = left;
        match stop {
            Stop::Exit(c) => if c == 0 {
                match &self.machine.output {
                    Some(o) => Progress::Done(Ok(ExecutionResult::Present(o.clone()))),
                    None => Progress::Done(Ok(ExecutionResult::Absent)),
                }
            } else {
                Progress::Done(Err(Error::ScriptExit(c)))
            },
            Stop::Fault => Progress::Done(Err(Error::ExecutionFault)),
            Stop::Continue => Progress::Done(Err(Error::ResourceLimitExceeded)),
            Stop::Fetch(l) => Progress::NeedCell(l),
        }
    }

    /// Records what the remote node answered for `locator` (`None`: it
    /// could not supply the cell).
    pub fn supply(&mut self, locator: Locator, cell: Option<Cell>)
        ensures
            final(self).known@ == old(self).known@.push(Fetched { locator, cell }),
            final(self).machine == old(self).machine,
            final(self).ctx == old(self).ctx,
            final(self).fuel == old(self).fuel,
    {
        self.known.push(Fetched { locator, cell });
    }
}

/// Runs `ctx` to the end with at most `max_cycles` instructions, answering
/// only from the context and from `known`; a request for any other remote
/// cell makes the context unavailable.
pub fn execute(ctx: ExecutionContext, known: Vec<Fetched>, max_cycles: u64) -> (r: Result<ExecutionResult, Error>)
    ensures
        !layout_fits(ctx) ==> r == Err::<ExecutionResult, Error>(Error::ResourceLimitExceeded),
        layout_fits(ctx) ==> ({
            let (end, s, left) = run(initial(ctx), ctx, known@, max_cycles as nat);
            result_is(r, outcome(end, s))
        }),
{
    match Session::start(ctx, max_cycles) {
        Err(e) => Err(e),
        Ok(mut session) => {
            session.known = known;
            match session.resume() {
                Progress::Done(r) => r,
                Progress::NeedCell(_) => Err(Error::ContextUnavailable),
            }
        },
    }
}

} // verus!
