use vstd::prelude::*;

pub mod addressing;
pub mod cpu;
pub mod cycle;
pub mod error;
pub mod instruction;
pub mod lookup;
pub mod micro_op;
pub mod mnemonic;
pub mod opcode_map;
pub mod phase;
pub mod status;
pub mod timing;

verus! {

} // verus!
