use vstd::prelude::*;

pub mod bus;
pub mod config;
pub mod drivers;
pub mod interpreter;
pub mod laws;
pub mod machine;
mod random;

verus! {

/// Address at which a program is loaded and starts.
pub const START_MEM_LOC: usize = 0x200;

} // verus!
