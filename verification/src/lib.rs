//! Marshalling layer for a Pascal-derived scripting runtime: counterparts of
//! the runtime's length-prefixed code-page-aware string, its null-terminated
//! dynamic array, its setup-step enumeration and its opaque execution-context
//! handle, together with the driver that prepares every value handed across
//! the foreign boundary.
//!
//! Each type owns its storage outright; a raw, foreign-visible view is only
//! derived at the boundary (outside this crate) for the duration of a call.

use vstd::prelude::*;

pub mod ansistring;
pub mod array;
pub mod codec;
pub mod installer;
pub mod tpsexec;
pub mod tsetupstep;

pub use ansistring::PascalAnsiString;
pub use array::PascalDynamicArray;
pub use installer::InstallerDriver;
pub use tpsexec::PascalTPSExec;
pub use tsetupstep::TSetupStep;

verus! {

/// The reference count recorded on every string this crate produces: the
/// value the runtime reads as "not reference counted, immutable constant".
pub const UNSHARED_REFERENCE_COUNT: i64 = -1;

/// A marshalling failure. Every variant is terminal for the current run:
/// the driver aborts, nothing retries.
#[derive(Clone, Copy, PartialEq, Eq, Structural, Debug)]
pub enum MarshalError {
    /// A stored code-page tag has no known decoder.
    UnknownCodepage,
    /// A null-terminated table was reconstructed from a slot run that holds
    /// no terminator, which an unbounded scan would have read past.
    MissingTerminator,
}

impl MarshalError {
    /// The boundary contract named by this failure, for the process's
    /// abort message.
    pub fn describe(&self) -> (r: &'static str)
        ensures
            self is UnknownCodepage ==> r@ == "no decoder is registered for the stored code page"@,
            self is MissingTerminator ==> r@ == "slot run carries no null terminator"@,
    {
        match self {
            MarshalError::UnknownCodepage => "no decoder is registered for the stored code page",
            MarshalError::MissingTerminator => "slot run carries no null terminator",
        }
    }
}

} // verus!
