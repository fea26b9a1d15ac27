use vstd::prelude::*;

verus! {

/// The part of a field of `field.len()` bytes that a request for
/// `requested` bytes from `offset` receives.
pub open spec fn window(field: Seq<u8>, offset: int, requested: int) -> Seq<u8> {
    if offset >= field.len() {
        Seq::empty()
    } else if requested <= field.len() - offset {
        field.subrange(offset, offset + requested)
    } else {
        field.subrange(offset, field.len() as int)
    }
}

/// Serves a partial load: the bytes of `field` from `offset`, at most
/// `requested` of them, together with the field's total length.
pub fn partial_load(field: &Vec<u8>, offset: u64, requested: u64) -> (r: (Vec<u8>, u64))
    requires
        field@.len() <= u64::MAX,
    ensures
        r.0@ == window(field@, offset as int, requested as int),
        r.1 == field@.len(),
{
    let total: usize = field.len();
    let mut out: Vec<u8> = Vec::new();
    if offset < total as u64 {
        let start: usize = offset as usize;
        let avail: usize = total - start;
        let take: usize = if requested < avail as u64 {
            requested as usize
        } else {
            avail
        };
        let mut i: usize = 0;
        while i < take
            invariant
                start + take <= total,
                total == field@.len(),
                i <= take,
                out@ == field@.subrange(start as int, start + i),
            decreases take - i,
        {
            out.push(field[start + i]);
            i = i + 1;
            assert(out@ =~= field@.subrange(start as int, start + i));
        }
        assert(out@ =~= window(field@, offset as int, requested as int));
    } else {
        assert(out@ =~= window(field@, offset as int, requested as int));
    }
    (out, total as u64)
}

/// A request that starts at or past the end of a field receives nothing,
/// and still learns the field's full length; any other request receives
/// exactly the smaller of what it asked for and what remains, taken from
/// the field at the requested offset.
pub proof fn lemma_partial_load(field: Seq<u8>, offset: int, requested: int)
    requires
        0 <= offset,
        0 <= requested,
    ensures
        offset >= field.len() ==> window(field, offset, requested).len() == 0,
        offset < field.len() ==> {
            let n = if requested < field.len() - offset { requested } else { field.len() - offset };
            &&& window(field, offset, requested).len() == n
            &&& forall|i: int| 0 <= i < n ==> #[trigger] window(field, offset, requested)[i] == field[offset + i]
        },
{
}

/// Serves a request for argument `index`: its bytes in the requested
/// window, with the argument's length; an index past the last argument
/// gets an empty answer of length zero.
pub fn load_argument(args: &Vec<Vec<u8>>, index: u64, offset: u64, requested: u64) -> (r: (Vec<u8>, u64))
    requires
        forall|i: int| 0 <= i < args@.len() ==> #[trigger] args@[i]@.len() <= u64::MAX,
    ensures
        index < args@.len() ==> r.0@ == window(args@[index as int]@, offset as int, requested as int)
            && r.1 == args@[index as int]@.len(),
        index >= args@.len() ==> r.0@.len() == 0 && r.1 == 0,
{
    if index < args.len() as u64 {
        partial_load(&args[index as usize], offset, requested)
    } else {
        (Vec::new(), 0)
    }
}

} // verus!
