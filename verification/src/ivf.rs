//! Errors of IVF container handling.
//!
//! The IVF demuxer itself lives outside this library: it hands the
//! parser one opaque packet at a time.  Only its error type is part of
//! the shared surface.

use vstd::prelude::*;

verus! {

/// The operating system error type carried by a failed container read.
#[verifier::external_type_specification]
#[verifier::external_body]
pub struct ExIoError(std::io::Error);

/// Errors that can occur when reading IVF containers.
#[derive(Debug)]
pub enum IvfError {
    /// An error of the underlying reader.
    IoError(std::io::Error),
    /// Invalid header.
    InvalidHeader(String),
    /// Unexpected file ending.
    UnexpectedFileEnding,
}

} // verus!
