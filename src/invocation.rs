use vstd::prelude::*;
use crate::model::{Cell, Error, ExecutionContext, Script, Transaction};

verus! {

/// Builds the context of an invocation from the cell found at its locator
/// (`None`: the node has no live cell there) and the caller's overrides,
/// which are taken as they are. The cell's data is the binary; a cell
/// without data, or with empty data, has no binary to run.
pub fn prepare_context(
    found: Option<Cell>,
    args: Vec<Vec<u8>>,
    script: Option<Script>,
    cell: Option<Cell>,
    tx: Option<Transaction>,
) -> (r: Result<ExecutionContext, Error>)
    ensures
        found is None ==> r == Err::<ExecutionContext, Error>(Error::NotFound),
        found is Some && (found->0.data is None || found->0.data->0@.len() == 0) ==> r == Err::<ExecutionContext, Error>(Error::MissingData),
        found is Some && found->0.data is Some && found->0.data->0@.len() > 0 ==> r is Ok && ({
            let c = r->Ok_0;
            &&& c.binary@ == found->0.data->0@
            &&& c.args == args
            &&& c.script == script
            &&& c.cell == cell
            &&& c.tx == tx
            &&& c.wf()
        }),
{
    match found {
        None => Err(Error::NotFound),
        Some(found_cell) => match found_cell.data {
            None => Err(Error::MissingData),
            Some(binary) => if binary.len() == 0 {
                Err(Error::MissingData)
            } else {
                Ok(ExecutionContext { binary, args, script, cell, tx })
            },
        },
    }
}

} // verus!
