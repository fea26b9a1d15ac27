use vstd::prelude::*;

verus! {

/// Identifies a cell: the hash of the transaction that created it and the
/// position of the cell among that transaction's outputs.
#[derive(Clone, Debug)]
pub struct Locator {
    pub tx_hash: Vec<u8>,
    pub index: u32,
}

/// A script slot of a cell: which code runs and with which arguments.
#[derive(Clone, Debug)]
pub struct Script {
    pub code_hash: Vec<u8>,
    pub hash_type: u8,
    pub args: Vec<u8>,
}

/// A blockchain cell.
#[derive(Clone, Debug)]
pub struct Cell {
    pub capacity: u64,
    pub lock: Script,
    pub type_script: Option<Script>,
    pub data: Option<Vec<u8>>,
}

/// The transaction a script logically runs under: the cells it consumes
/// (by locator), the cells it creates, and its witnesses.
#[derive(Clone, Debug)]
pub struct Transaction {
    pub inputs: Vec<Locator>,
    pub outputs: Vec<Cell>,
    pub witnesses: Vec<Vec<u8>>,
}

/// Everything a run needs to answer the script's requests.
#[derive(Clone, Debug)]
pub struct ExecutionContext {
    pub binary: Vec<u8>,
    pub args: Vec<Vec<u8>>,
    pub script: Option<Script>,
    pub cell: Option<Cell>,
    pub tx: Option<Transaction>,
}

impl ExecutionContext {
    /// The binary is always present and non-empty.
    pub open spec fn wf(&self) -> bool {
        self.binary@.len() > 0
    }
}

/// What a successful run hands back.
#[derive(Clone, Debug)]
pub enum ExecutionResult {
    Present(Vec<u8>),
    Absent,
}

/// Every way an invocation can fail.
#[derive(Clone, Copy, Debug, PartialEq, Eq, Structural)]
pub enum Error {
    NotFound,
    MissingData,
    ContextUnavailable,
    ConnectionError,
    MalformedResponse,
    ExecutionFault,
    ResourceLimitExceeded,
    ScriptExit(u64),
}

/// The text that describes each failure.
pub open spec fn error_text(e: Error) -> Seq<char> {
    match e {
        Error::NotFound => "cell not found"@,
        Error::MissingData => "cell doesn't have data"@,
        Error::ContextUnavailable => "execution context unavailable"@,
        Error::ConnectionError => "connection to the node failed"@,
        Error::MalformedResponse => "malformed response from the node"@,
        Error::ExecutionFault => "execution fault"@,
        Error::ResourceLimitExceeded => "resource limit exceeded"@,
        Error::ScriptExit(_) => "script exited with a non-zero code"@,
    }
}

impl Error {
    /// A human-readable description of the failure.
    pub fn describe(&self) -> (r: String)
        ensures
            r@ == error_text(*self),
    {
        match self {
            Error::NotFound => "cell not found".to_owned(),
            Error::MissingData => "cell doesn't have data".to_owned(),
            Error::ContextUnavailable => "execution context unavailable".to_owned(),
            Error::ConnectionError => "connection to the node failed".to_owned(),
            Error::MalformedResponse => "malformed response from the node".to_owned(),
            Error::ExecutionFault => "execution fault".to_owned(),
            Error::ResourceLimitExceeded => "resource limit exceeded".to_owned(),
            Error::ScriptExit(_) => "script exited with a non-zero code".to_owned(),
        }
    }
}

/// The bytes of a locator as a script sees them: the transaction hash
/// followed by the output index, little-endian.
pub open spec fn locator_bytes(l: Locator) -> Seq<u8> {
    l.tx_hash@ + u32_le(l.index)
}

pub open spec fn u32_le(v: u32) -> Seq<u8> {
    seq![
        (v % 256) as u8,
        ((v / 256) % 256) as u8,
        ((v / 65536) % 256) as u8,
        ((v / 16777216) % 256) as u8,
    ]
}

pub open spec fn u64_le(v: u64) -> Seq<u8> {
    Seq::new(8, |i: int| ((v as nat / pow256(i as nat)) % 256) as u8)
}

pub open spec fn pow256(k: nat) -> nat
    decreases k,
{
    if k == 0 {
        1
    } else {
        256 * pow256((k - 1) as nat)
    }
}

/// The serialised form of a script: code hash, hash type, then the
/// argument bytes.
pub open spec fn script_bytes(s: Script) -> Seq<u8> {
    s.code_hash@ + seq![s.hash_type] + s.args@
}

} // verus!
