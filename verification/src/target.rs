//! The operating system that a program runs on.
use vstd::prelude::*;

verus! {

#[derive(Debug, Clone, Copy, PartialEq, Eq, Structural)]
pub enum TargetOs {
    Linux,
    MacOs,
    Windows,
    /// A system without a capture backend.
    Other,
}

} // verus!
