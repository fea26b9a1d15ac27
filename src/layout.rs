use vstd::prelude::*;
use crate::model::ExecutionContext;
use crate::memory::{MEMORY_SIZE, store_le, write_bytes};

verus! {

/// The argument bytes as laid out in memory: each argument followed by a
/// zero byte.
pub open spec fn arg_blob(args: Seq<Seq<u8>>) -> Seq<u8>
    decreases args.len(),
{
    if args.len() == 0 {
        Seq::empty()
    } else {
        arg_blob(args.drop_last()) + args.last() + seq![0u8]
    }
}

/// The arguments of a context as byte sequences.
pub open spec fn arg_values(ctx: ExecutionContext) -> Seq<Seq<u8>> {
    Seq::new(ctx.args@.len(), |i: int| ctx.args@[i]@)
}

/// Where the argument bytes start: they end at the top of memory.
pub open spec fn data_start(args: Seq<Seq<u8>>) -> int {
    MEMORY_SIZE - arg_blob(args).len()
}

/// Where the table of argument pointers starts: eight bytes per argument,
/// ending at the last multiple of eight at or below the argument bytes. The
/// stack grows down from here.
pub open spec fn table_start(args: Seq<Seq<u8>>) -> int {
    (data_start(args) / 8) * 8 - 8 * args.len()
}

/// The arguments and their table fit in memory above the binary.
pub open spec fn layout_fits(ctx: ExecutionContext) -> bool {
    arg_blob(arg_values(ctx)).len() <= MEMORY_SIZE && table_start(arg_values(ctx)) >= ctx.binary@.len()
}

/// The address of argument `k`.
pub open spec fn arg_pointer(args: Seq<Seq<u8>>, k: int) -> u64 {
    (data_start(args) + arg_blob(args.subrange(0, k)).len()) as u64
}

/// `mem` with the first `k` argument pointers stored at `at`.
pub open spec fn write_table(mem: Seq<u8>, at: int, args: Seq<Seq<u8>>, k: nat) -> Seq<u8>
    decreases k,
{
    if k == 0 {
        mem
    } else {
        store_le(write_table(mem, at, args, (k - 1) as nat), at + 8 * (k - 1), arg_pointer(args, k - 1) as nat, 8)
    }
}

/// Memory at the start of a run: the binary at address zero, the table of
/// argument pointers and the argument bytes at the top, zeros elsewhere.
pub open spec fn initial_memory(ctx: ExecutionContext) -> Seq<u8> {
    let args = arg_values(ctx);
    let base = ctx.binary@ + Seq::new((MEMORY_SIZE - ctx.binary@.len()) as nat, |i: int| 0u8);
    write_bytes(write_table(base, table_start(args), args, args.len()), data_start(args), arg_blob(args))
}

pub proof fn lemma_arg_blob_prefix(args: Seq<Seq<u8>>, k: int)
    requires
        0 <= k < args.len(),
    ensures
        arg_blob(args.subrange(0, k + 1)) == arg_blob(args.subrange(0, k)) + args[k] + seq![0u8],
{
    assert(args.subrange(0, k + 1).drop_last() =~= args.subrange(0, k));
}

pub proof fn lemma_arg_blob_grows(args: Seq<Seq<u8>>, k: int)
    requires
        0 <= k <= args.len(),
    ensures
        arg_blob(args.subrange(0, k)).len() <= arg_blob(args).len(),
        arg_blob(args).len() >= args.len(),
    decreases args.len(),
{
    if args.len() > 0 {
        let shorter = args.drop_last();
        if k < args.len() {
            assert(args.subrange(0, k) =~= shorter.subrange(0, k));
            lemma_arg_blob_grows(shorter, k);
        } else {
            assert(args.subrange(0, k) =~= args);
            lemma_arg_blob_grows(shorter, 0);
        }
    }
}

pub proof fn lemma_write_table_below(mem: Seq<u8>, at: int, args: Seq<Seq<u8>>, k: nat, i: int)
    requires
        0 <= i < at,
        i < mem.len(),
    ensures
        write_table(mem, at, args, k).len() == mem.len(),
        write_table(mem, at, args, k)[i] == mem[i],
    decreases k,
{
    if k > 0 {
        lemma_write_table_below(mem, at, args, (k - 1) as nat, i);
    }
}

/// Setting up the arguments leaves the binary in place.
pub proof fn lemma_initial_memory_binary(ctx: ExecutionContext, i: int)
    requires
        layout_fits(ctx),
        0 <= i < ctx.binary@.len(),
    ensures
        initial_memory(ctx).len() == MEMORY_SIZE,
        initial_memory(ctx)[i] == ctx.binary@[i],
{
    let args = arg_values(ctx);
    let base = ctx.binary@ + Seq::new((MEMORY_SIZE - ctx.binary@.len()) as nat, |i: int| 0u8);
    lemma_write_table_below(base, table_start(args), args, args.len(), i);
    assert(table_start(args) <= data_start(args));
}

} // verus!
