//! What the pipeline knows of the toolchains that build the two sides of a
//! test.

use vstd::prelude::*;

verus! {

/// A toolchain as the pipeline sees it.
#[derive(Debug, Clone)]
pub struct Toolchain {
    /// The language it compiles, such as `c` or `rust`.
    pub lang: String,
    /// The extension of its source files, without the dot.
    pub src_ext: String,
}

impl Toolchain {
    /// The language this toolchain compiles.
    pub fn lang(&self) -> (lang: &str)
        ensures
            lang@ == self.lang@,
    {
        self.lang.as_str()
    }

    /// The extension of this toolchain's source files.
    pub fn src_ext(&self) -> (ext: &str)
        ensures
            ext@ == self.src_ext@,
    {
        self.src_ext.as_str()
    }
}

} // verus!
