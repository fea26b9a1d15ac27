//! Off-chain execution of on-chain RISC-V scripts under a mocked
//! blockchain context.
//!
//! Conventions of a run:
//! - The binary is a flat RV64IM image placed at address zero of a
//!   `MEMORY_SIZE`-byte memory; execution starts at address zero.
//! - The arguments sit at the top of memory, each followed by a zero byte,
//!   under a table of pointers to them; `a0` holds their count, `a1` and
//!   the stack pointer the address of the table.
//! - `ecall` takes its number in `a7` (see `dispatch`). Load calls take a
//!   buffer address in `a0`, the address of an eight-byte length slot in
//!   `a1` (the bytes wanted on entry, the field's full length on return),
//!   an offset in `a2`, an index in `a3`, a source in `a4` and a field in
//!   `a5`; they return zero in `a0`, or a non-zero code when the item
//!   cannot be had.
//! - A program declares its return value with the return call (address in
//!   `a0`, length in `a1`) and ends with the exit call (code in `a0`).

pub mod model;
pub mod load;
pub mod memory;
pub mod decode;
pub mod encode;
pub mod dispatch;
pub mod arith;
pub mod machine;
pub mod layout;
pub mod engine;
pub mod laws;
pub mod hex;
pub mod invocation;
