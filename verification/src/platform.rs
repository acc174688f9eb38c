//! The operating systems that the core tells apart.

use vstd::prelude::*;

verus! {

/// The operating system the process runs on, found out once at start-up.
#[derive(Clone, Copy, Debug, PartialEq, Eq, Structural)]
pub enum Platform {
    Windows,
    MacOs,
    Linux,
    /// Any other system: no proxy backend exists for it.
    Other,
}

} // verus!
