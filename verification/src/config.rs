use vstd::prelude::*;

verus! {

/// Presentation settings of a front end.
pub struct Config {
    /// Window pixels per display cell.
    pub scale_factor: u32,
    /// Whether the front end starts in its debugger.
    pub debugger: bool,
}

} // verus!
