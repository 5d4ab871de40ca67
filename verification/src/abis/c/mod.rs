//! The C-family backend.

pub mod declare;

use crate::abis::Platform;
use vstd::prelude::*;

verus! {

/// The compiler family whose spelling of extensions the backend uses.
#[derive(Debug, Clone, Copy, PartialEq, Eq, Structural, Hash)]
pub enum CCFlavor {
    Clang,
    Gcc,
    Msvc,
}

/// A C toolchain: the compiler family and the platform it compiles for.
#[derive(Debug, Clone, Copy, PartialEq, Eq, Structural, Hash)]
pub struct CcAbiImpl {
    pub cc_flavor: CCFlavor,
    pub platform: Platform,
}

impl CcAbiImpl {
    /// A C toolchain of the given family on the given platform.
    pub fn new(cc_flavor: CCFlavor, platform: Platform) -> (toolchain: CcAbiImpl)
        ensures
            toolchain.cc_flavor == cc_flavor,
            toolchain.platform == platform,
    {
        CcAbiImpl { cc_flavor, platform }
    }
}

} // verus!
