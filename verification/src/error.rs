//! The error taxonomy: setup failures are fatal to construction, transport
//! failures are fatal to the current wait; resolution misses are never
//! errors and degrade to `Unknown` sentinels instead.

use vstd::prelude::*;

verus! {

/// A fatal failure surfaced to the caller.
#[derive(Debug)]
pub enum Error {
    /// The transport-level connection to the windowing server failed, at
    /// setup or while waiting for an event; carries the platform layer's
    /// description.
    Transport(String),
    /// A required protocol symbol could not be interned at construction.
    MissingAtom,
    /// The keymap extension is unsupported or below the minimum version.
    UnsupportedKeymap,
}

} // verus!
