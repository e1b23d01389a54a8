//! Verified core of a pak-archive transcoding pipeline.
//!
//! The library models the decisions of a tool that rewrites a packed game
//! archive: entries whose resolved name marks them as texture containers are
//! decompressed and re-serialized, all other entries are copied verbatim.
//! Reading the source archive, the texture codec itself and writing the
//! destination archive are outside collaborators; the functions here decide
//! which entries are selected, what is written for each outcome of those
//! collaborators, and how a run reacts to a failure.
//!
//! Failure policy: the first per-entry failure stops dispatch of further
//! entries, entries already handed out still finish, and the destination
//! archive is always finalized with everything written so far. An entry
//! that fails — in any mode — is excluded from the destination, never
//! copied in its source form.

use vstd::prelude::*;

pub mod names;
pub mod output;
pub mod plan;
pub mod run;
pub mod transform;

verus! {

/// Attribute bits given to a destination entry when attribute cloning is off.
pub const DEFAULT_ATTR: u64 = 0;

/// How an entry is handled: texture payloads are rewritten, everything else
/// is copied byte for byte.
#[derive(Clone, Copy, Debug, PartialEq, Eq, Structural)]
pub enum EntryClass {
    Transformable,
    PassThrough,
}

/// The stage of the per-entry pipeline in which work happens or fails.
#[derive(Clone, Copy, Debug, PartialEq, Eq, Structural)]
pub enum Stage {
    Reading,
    Transforming,
    Writing,
}

/// Why the texture codec rejected an entry.
#[derive(Clone, Copy, Debug, PartialEq, Eq, Structural)]
pub enum TexFailure {
    /// The header or mip table of the container is inconsistent.
    Malformed,
    /// One mipmap level could not be decompressed.
    DecodeFailed,
    /// The decompressed container could not be re-serialized.
    EncodeFailed,
}

/// A per-entry error: it stops dispatch of further entries but leaves the
/// destination archive valid with everything written so far.
#[derive(Clone, Copy, Debug, PartialEq, Eq, Structural)]
pub enum EntryError {
    ReadFailed,
    MalformedTexture,
    DecodeFailed,
    EncodeFailed,
}

/// Selects the attribute bits for a destination entry: the source entry's
/// bits when attribute cloning is on, the default bits otherwise.
pub fn select_attr(clone_attr: bool, src_attr: u64) -> (r: u64)
    ensures
        r == if clone_attr { src_attr } else { DEFAULT_ATTR },
{
    if clone_attr {
        src_attr
    } else {
        DEFAULT_ATTR
    }
}

} // verus!
