//! The per-entry transformer.
//!
//! A pass-through entry's output is its input, byte for byte. A texture
//! entry's output is whatever the outside texture codec produced for it:
//! the codec's verdict arrives here as a value, and this function decides,
//! for every possible verdict, what the run writes or which error it
//! reports. Failure of any codec stage fails the whole entry — there is no
//! partial-mip recovery.

use vstd::prelude::*;

verus! {

use crate::EntryClass;
use crate::EntryError;
use crate::TexFailure;

/// What the outside texture codec reported for one entry: nothing (the
/// entry is not a texture, so the codec was never run), the decompressed
/// and re-serialized container bytes, or the stage that failed.
pub enum CodecOutcome {
    NotRun,
    Decoded(Vec<u8>),
    Failed(TexFailure),
}

/// The per-entry error that a codec failure turns into.
pub open spec fn spec_codec_error(f: TexFailure) -> EntryError {
    match f {
        TexFailure::Malformed => EntryError::MalformedTexture,
        TexFailure::DecodeFailed => EntryError::DecodeFailed,
        TexFailure::EncodeFailed => EntryError::EncodeFailed,
    }
}

/// Transforms one entry's payload.
///
/// A pass-through entry must come with `CodecOutcome::NotRun`, a
/// transformable entry with the codec's actual verdict.
pub fn transform_bytes(class: EntryClass, input: Vec<u8>, codec: CodecOutcome) -> (r: Result<
    Vec<u8>,
    EntryError,
>)
    requires
        class is PassThrough <==> codec is NotRun,
    ensures
        class is PassThrough ==> r is Ok && r->Ok_0@ == input@,
        class is Transformable && codec is Decoded ==> r is Ok && r->Ok_0@ == codec->Decoded_0@,
        class is Transformable && codec is Failed ==> r is Err && r->Err_0 == spec_codec_error(
            codec->Failed_0,
        ),
{
    match codec {
        CodecOutcome::NotRun => Ok(input),
        CodecOutcome::Decoded(bytes) => Ok(bytes),
        CodecOutcome::Failed(f) => match f {
            TexFailure::Malformed => Err(EntryError::MalformedTexture),
            TexFailure::DecodeFailed => Err(EntryError::DecodeFailed),
            TexFailure::EncodeFailed => Err(EntryError::EncodeFailed),
        },
    }
}

} // verus!
