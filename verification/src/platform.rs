//! The operating systems the utility runs on.

use vstd::prelude::*;

verus! {

/// The platform the program was built for. Labels and instructions differ
/// between them.
#[derive(Debug, Clone, Copy, PartialEq, Eq, Structural)]
pub enum Platform {
    Windows,
    MacOs,
    Linux,
}

} // verus!
