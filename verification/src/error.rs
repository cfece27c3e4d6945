//! Errors reported while parsing VP9 data.

use vstd::prelude::*;

verus! {

/// Errors that can occur when parsing VP9 frames or codec-private metadata.
#[derive(Clone, Copy, Debug, PartialEq, Eq, Structural)]
pub enum ParserError {
    /// The bit reader was asked to read past the end of the buffer.
    BitRead,
    /// The frame marker was not 2.
    InvalidFrameMarker,
    /// A non-zero trailing bit was found before byte alignment.
    InvalidPadding,
    /// All three frame sync bytes differed from their expected values.
    InvalidSyncByte,
    /// A reference slot index was out of bounds (reserved for stricter
    /// validation; slot indices are 3 bits wide and always in range).
    InvalidRefFrameIndex,
    /// A required codec-private feature id was missing.
    InvalidMetadata,
    /// A superframe index entry width outside 1..=4.
    InvalidFrameSizeByteSize(usize),
    /// A size field did not fit the width of its target type.
    NumericRange,
}

} // verus!
