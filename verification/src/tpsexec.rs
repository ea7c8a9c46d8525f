//! The execution-context handle: an opaque token standing for one compiled,
//! runnable instance of interpreted bytecode inside the foreign engine.

use vstd::prelude::*;

verus! {

/// An opaque, non-owned token for a foreign interpreter instance.
///
/// The foreign "compile" entry point is the only producer of such tokens;
/// this crate never fabricates one for its own use, never frees one, and
/// reads nothing out of one. Identity is meaningful only to the engine.
#[derive(Clone, Copy, PartialEq, Eq, Structural, Debug)]
pub struct PascalTPSExec {
    raw: usize,
}

impl PascalTPSExec {
    /// The word the foreign side handed over, unchanged.
    pub closed spec fn spec_raw(self) -> usize {
        self.raw
    }

    /// Wraps the word received from the foreign "compile" entry point.
    pub fn from_raw(raw: usize) -> (r: PascalTPSExec)
        ensures
            r.spec_raw() == raw,
    {
        PascalTPSExec { raw }
    }

    /// Hands the word back for the foreign "invoke" entry point.
    pub fn raw(&self) -> (r: usize)
        ensures
            r == self.spec_raw(),
    {
        self.raw
    }
}

} // verus!
