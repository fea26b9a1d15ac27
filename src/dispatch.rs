use vstd::prelude::*;
use crate::model::{Cell, ExecutionContext, Locator, Script, script_bytes, u64_le, locator_bytes};
use crate::encode::{encode_locator, encode_script, encode_u64};

verus! {

/// Ends the run with the code in `a0`.
pub const SYS_EXIT: u64 = 93;
/// Loads the locator of the transaction's input at an index.
pub const SYS_LOAD_TRANSACTION: u64 = 2051;
/// Loads the current script.
pub const SYS_LOAD_SCRIPT: u64 = 2052;
/// Loads the data of a cell.
pub const SYS_LOAD_CELL: u64 = 2071;
/// Loads a witness of the transaction.
pub const SYS_LOAD_WITNESS: u64 = 2074;
/// Loads one field of a cell.
pub const SYS_LOAD_CELL_BY_FIELD: u64 = 2081;
/// Debug output; ignored.
pub const SYS_DEBUG: u64 = 2177;
/// Loads one of the invocation's arguments.
pub const SYS_LOAD_ARGUMENT: u64 = 2301;
/// Declares the run's return value.
pub const SYS_RETURN: u64 = 2302;

pub const SOURCE_INPUT: u64 = 1;
pub const SOURCE_OUTPUT: u64 = 2;
pub const SOURCE_CURRENT: u64 = 3;

pub const FIELD_CAPACITY: u64 = 0;
pub const FIELD_LOCK: u64 = 1;
pub const FIELD_TYPE: u64 = 2;
pub const FIELD_DATA: u64 = 3;

/// Syscall return code: the index is past the end of its list.
pub const INDEX_OUT_OF_BOUND: u64 = 1;
/// Syscall return code: no source can supply the item.
pub const ITEM_MISSING: u64 = 2;

/// A cell fetched from the remote node during a run (`None`: the node
/// could not supply it).
#[derive(Clone, Debug)]
pub struct Fetched {
    pub locator: Locator,
    pub cell: Option<Cell>,
}

/// How a load request is answered.
#[derive(Debug)]
pub enum Answer {
    /// The whole field; the caller takes the requested window of it.
    Data(Vec<u8>),
    /// The request fails with this return code.
    Missing(u64),
    /// The answer needs the cell at this locator from the remote node.
    Fetch(Locator),
    /// The request breaks the protocol.
    Invalid,
}

/// What an answer means, for contracts; a locator is given by its hash
/// and index.
pub enum Reply {
    Data(Seq<u8>),
    Missing(u64),
    Fetch(Seq<u8>, u32),
    Invalid,
}

impl Answer {
    pub open spec fn reply(&self) -> Reply {
        match self {
            Answer::Data(d) => Reply::Data(d@),
            Answer::Missing(c) => Reply::Missing(*c),
            Answer::Fetch(l) => Reply::Fetch(l.tx_hash@, l.index),
            Answer::Invalid => Reply::Invalid,
        }
    }
}

pub open spec fn same_locator(a: Locator, b: Locator) -> bool {
    a.tx_hash@ == b.tx_hash@ && a.index == b.index
}

/// The first fetched answer for `l`, if any.
pub open spec fn lookup(known: Seq<Fetched>, l: Locator) -> Option<Option<Cell>>
    decreases known.len(),
{
    if known.len() == 0 {
        None
    } else if same_locator(known[0].locator, l) {
        Some(known[0].cell)
    } else {
        lookup(known.drop_first(), l)
    }
}

/// The reply for a cell that must come from the remote node.
pub open spec fn remote_cell(known: Seq<Fetched>, l: Locator) -> Result<Cell, Reply> {
    match lookup(known, l) {
        Some(Some(c)) => Ok(c),
        Some(None) => Err(Reply::Missing(ITEM_MISSING)),
        None => Err(Reply::Fetch(l.tx_hash@, l.index)),
    }
}

/// The cell named by `index` and `source`.
pub open spec fn cell_at(ctx: ExecutionContext, known: Seq<Fetched>, index: u64, source: u64) -> Result<Cell, Reply> {
    if source == SOURCE_CURRENT {
        match ctx.cell {
            Some(c) => Ok(c),
            None => Err(Reply::Missing(ITEM_MISSING)),
        }
    } else if source == SOURCE_INPUT {
        match ctx.tx {
            Some(tx) => if index < tx.inputs@.len() {
                remote_cell(known, tx.inputs@[index as int])
            } else {
                Err(Reply::Missing(INDEX_OUT_OF_BOUND))
            },
            None => Err(Reply::Missing(ITEM_MISSING)),
        }
    } else if source == SOURCE_OUTPUT {
        match ctx.tx {
            Some(tx) => if index < tx.outputs@.len() {
                Ok(tx.outputs@[index as int])
            } else {
                Err(Reply::Missing(INDEX_OUT_OF_BOUND))
            },
            None => Err(Reply::Missing(ITEM_MISSING)),
        }
    } else {
        Err(Reply::Invalid)
    }
}

/// One field of a cell.
pub open spec fn cell_field(c: Cell, field: u64) -> Reply {
    if field == FIELD_CAPACITY {
        Reply::Data(u64_le(c.capacity))
    } else if field == FIELD_LOCK {
        Reply::Data(script_bytes(c.lock))
    } else if field == FIELD_TYPE {
        match c.type_script {
            Some(s) => Reply::Data(script_bytes(s)),
            None => Reply::Missing(ITEM_MISSING),
        }
    } else if field == FIELD_DATA {
        match c.data {
            Some(d) => Reply::Data(d@),
            None => Reply::Missing(ITEM_MISSING),
        }
    } else {
        Reply::Invalid
    }
}

/// The current script: the context's own, else the lock of the
/// transaction's first input.
pub open spec fn current_script(ctx: ExecutionContext, known: Seq<Fetched>) -> Reply {
    match ctx.script {
        Some(s) => Reply::Data(script_bytes(s)),
        None => match ctx.tx {
            Some(tx) => if tx.inputs@.len() > 0 {
                match remote_cell(known, tx.inputs@[0]) {
                    Ok(c) => Reply::Data(script_bytes(c.lock)),
                    Err(r) => r,
                }
            } else {
                Reply::Missing(ITEM_MISSING)
            },
            None => Reply::Missing(ITEM_MISSING),
        },
    }
}

/// The whole field that load syscall `number` asks for.
pub open spec fn resolve(ctx: ExecutionContext, known: Seq<Fetched>, number: u64, index: u64, source: u64, field: u64) -> Reply {
    if number == SYS_LOAD_ARGUMENT {
        if index < ctx.args@.len() {
            Reply::Data(ctx.args@[index as int]@)
        } else {
            Reply::Data(Seq::empty())
        }
    } else if number == SYS_LOAD_SCRIPT {
        current_script(ctx, known)
    } else if number == SYS_LOAD_CELL || number == SYS_LOAD_CELL_BY_FIELD {
        match cell_at(ctx, known, index, source) {
            Ok(c) => cell_field(c, if number == SYS_LOAD_CELL { FIELD_DATA } else { field }),
            Err(r) => r,
        }
    } else if number == SYS_LOAD_TRANSACTION {
        match ctx.tx {
            Some(tx) => if index < tx.inputs@.len() {
                Reply::Data(locator_bytes(tx.inputs@[index as int]))
            } else {
                Reply::Missing(INDEX_OUT_OF_BOUND)
            },
            None => Reply::Missing(ITEM_MISSING),
        }
    } else if number == SYS_LOAD_WITNESS {
        match ctx.tx {
            Some(tx) => if index < tx.witnesses@.len() {
                Reply::Data(tx.witnesses@[index as int]@)
            } else {
                Reply::Missing(INDEX_OUT_OF_BOUND)
            },
            None => Reply::Missing(ITEM_MISSING),
        }
    } else {
        Reply::Invalid
    }
}

pub open spec fn is_load(number: u64) -> bool {
    number == SYS_LOAD_ARGUMENT || number == SYS_LOAD_SCRIPT || number == SYS_LOAD_CELL
        || number == SYS_LOAD_CELL_BY_FIELD || number == SYS_LOAD_TRANSACTION
        || number == SYS_LOAD_WITNESS
}

fn bytes_equal(a: &Vec<u8>, b: &Vec<u8>) -> (r: bool)
    ensures
        r == (a@ == b@),
{
    if a.len() != b.len() {
        return false;
    }
    let mut i: usize = 0;
    while i < a.len()
        invariant
            a@.len() == b@.len(),
            i <= a@.len(),
            forall|j: int| 0 <= j < i ==> a@[j] == b@[j],
        decreases a@.len() - i,
    {
        if a[i] != b[i] {
            return false;
        }
        i = i + 1;
    }
    assert(a@ =~= b@);
    true
}

/// Finds the first answer of the remote node for `l`, if it was asked.
pub fn find_fetched(known: &Vec<Fetched>, l: &Locator) -> (r: Option<usize>)
    ensures
        match r {
            Some(i) => i < known@.len() && lookup(known@, *l) == Some(known@[i as int].cell),
            None => lookup(known@, *l) == None::<Option<Cell>>,
        },
{
    let mut i: usize = 0;
    assert(known@.subrange(0, known@.len() as int) =~= known@);
    while i < known.len()
        invariant
            i <= known@.len(),
            lookup(known@, *l) == lookup(known@.subrange(i as int, known@.len() as int), *l),
        decreases known@.len() - i,
    {
        let ghost rest = known@.subrange(i as int, known@.len() as int);
        assert(rest.drop_first() =~= known@.subrange(i + 1, known@.len() as int));
        if known[i].locator.index == l.index && bytes_equal(&known[i].locator.tx_hash, &l.tx_hash) {
            return Some(i);
        }
        i = i + 1;
    }
    None
}

impl Locator {
    /// A copy of the locator.
    pub fn duplicate(&self) -> (r: Locator)
        ensures
            r.tx_hash@ == self.tx_hash@,
            r.index == self.index,
    {
        Locator { tx_hash: self.tx_hash.clone(), index: self.index }
    }
}

pub open spec fn reply_of<'a>(r: Result<&'a Cell, Answer>, s: Result<Cell, Reply>) -> bool {
    match (r, s) {
        (Ok(c), Ok(d)) => *c == d,
        (Err(a), Err(b)) => a.reply() == b,
        _ => false,
    }
}

fn remote_cell_exec<'a>(known: &'a Vec<Fetched>, l: &Locator) -> (r: Result<&'a Cell, Answer>)
    ensures
        reply_of(r, remote_cell(known@, *l)),
{
    match find_fetched(known, l) {
        Some(i) => match &known[i].cell {
            Some(c) => Ok(c),
            None => Err(Answer::Missing(ITEM_MISSING)),
        },
        None => Err(Answer::Fetch(l.duplicate())),
    }
}

fn cell_at_exec<'a>(ctx: &'a ExecutionContext, known: &'a Vec<Fetched>, index: u64, source: u64) -> (r: Result<&'a Cell, Answer>)
    ensures
        reply_of(r, cell_at(*ctx, known@, index, source)),
{
    if source == SOURCE_CURRENT {
        match &ctx.cell {
            Some(c) => Ok(c),
            None => Err(Answer::Missing(ITEM_MISSING)),
        }
    } else if source == SOURCE_INPUT {
        match &ctx.tx {
            Some(tx) => if index < tx.inputs.len() as u64 {
                remote_cell_exec(known, &tx.inputs[index as usize])
            } else {
                Err(Answer::Missing(INDEX_OUT_OF_BOUND))
            },
            None => Err(Answer::Missing(ITEM_MISSING)),
        }
    } else if source == SOURCE_OUTPUT {
        match &ctx.tx {
            Some(tx) => if index < tx.outputs.len() as u64 {
                Ok(&tx.outputs[index as usize])
            } else {
                Err(Answer::Missing(INDEX_OUT_OF_BOUND))
            },
            None => Err(Answer::Missing(ITEM_MISSING)),
        }
    } else {
        Err(Answer::Invalid)
    }
}

fn cell_field_exec(c: &Cell, field: u64) -> (r: Answer)
    ensures
        r.reply() == cell_field(*c, field),
{
    if field == FIELD_CAPACITY {
        Answer::Data(encode_u64(c.capacity))
    } else if field == FIELD_LOCK {
        Answer::Data(encode_script(&c.lock))
    } else if field == FIELD_TYPE {
        match &c.type_script {
            Some(s) => Answer::Data(encode_script(s)),
            None => Answer::Missing(ITEM_MISSING),
        }
    } else if field == FIELD_DATA {
        match &c.data {
            Some(d) => Answer::Data(d.clone()),
            None => Answer::Missing(ITEM_MISSING),
        }
    } else {
        Answer::Invalid
    }
}

fn current_script_exec(ctx: &ExecutionContext, known: &Vec<Fetched>) -> (r: Answer)
    ensures
        r.reply() == current_script(*ctx, known@),
{
    match &ctx.script {
        Some(s) => Answer::Data(encode_script(s)),
        None => match &ctx.tx {
            Some(tx) => if tx.inputs.len() > 0 {
                match remote_cell_exec(known, &tx.inputs[0]) {
                    Ok(c) => Answer::Data(encode_script(&c.lock)),
                    Err(a) => a,
                }
            } else {
                Answer::Missing(ITEM_MISSING)
            },
            None => Answer::Missing(ITEM_MISSING),
        },
    }
}

/// Answers load syscall `number` for the item at `index` of `source`
/// (and `field`, for a field load), from the context first and then from
/// what the remote node has supplied.
pub fn resolve_load(ctx: &ExecutionContext, known: &Vec<Fetched>, number: u64, index: u64, source: u64, field: u64) -> (r: Answer)
    ensures
        r.reply() == resolve(*ctx, known@, number, index, source, field),
{
    if number == SYS_LOAD_ARGUMENT {
        if index < ctx.args.len() as u64 {
            Answer::Data(ctx.args[index as usize].clone())
        } else {
            Answer::Data(Vec::new())
        }
    } else if number == SYS_LOAD_SCRIPT {
        current_script_exec(ctx, known)
    } else if number == SYS_LOAD_CELL || number == SYS_LOAD_CELL_BY_FIELD {
        match cell_at_exec(ctx, known, index, source) {
            Ok(c) => cell_field_exec(c, if number == SYS_LOAD_CELL { FIELD_DATA } else { field }),
            Err(a) => a,
        }
    } else if number == SYS_LOAD_TRANSACTION {
        match &ctx.tx {
            Some(tx) => if index < tx.inputs.len() as u64 {
                Answer::Data(encode_locator(&tx.inputs[index as usize]))
            } else {
                Answer::Missing(INDEX_OUT_OF_BOUND)
            },
            None => Answer::Missing(ITEM_MISSING),
        }
    } else if number == SYS_LOAD_WITNESS {
        match &ctx.tx {
            Some(tx) => if index < tx.witnesses.len() as u64 {
                Answer::Data(tx.witnesses[index as usize].clone())
            } else {
                Answer::Missing(INDEX_OUT_OF_BOUND)
            },
            None => Answer::Missing(ITEM_MISSING),
        }
    } else {
        Answer::Invalid
    }
}

} // verus!
