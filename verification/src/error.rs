//! The failures that a caller is told about.

use vstd::prelude::*;

verus! {

/// Why a compression call produced no JPEG.
#[derive(Clone, Copy, Debug, PartialEq, Eq, Structural)]
pub enum CompressError {
    /// The input bytes are not a picture that the decoder accepts.
    DecodeFailed,
    /// No quality fit the budget and the last-resort encode failed too.
    FallbackEncodeFailed,
}

impl CompressError {
    /// A short description for the host.
    pub fn message(&self) -> (text: &'static str)
        ensures
            text@ == match *self {
                CompressError::DecodeFailed => "input is not a decodable image"@,
                CompressError::FallbackEncodeFailed => "fallback encode failed"@,
            },
    {
        match self {
            CompressError::DecodeFailed => "input is not a decodable image",
            CompressError::FallbackEncodeFailed => "fallback encode failed",
        }
    }
}

} // verus!
