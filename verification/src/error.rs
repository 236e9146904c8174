//! The error taxonomy of the codec dispatchers. Every validation error is
//! produced before any codec is invoked, so no partial output ever
//! accompanies a rejected request.
use vstd::prelude::*;

verus! {

/// The parameter a rejected combination names.
#[derive(Clone, Copy, Debug, PartialEq, Eq, Structural)]
pub enum CompressionParam {
    /// The optional compression effort level.
    Quality,
    /// The optional log2 window size, meaningful only to brotli.
    WindowSize,
}

/// An error from the encoder dispatcher.
#[derive(Clone, Debug, PartialEq, Eq)]
pub enum EncodeError {
    /// More than one algorithm flag was set.
    AmbiguousAlgorithmSelection,
    /// A quality or window-size value outside the resolved algorithm's
    /// domain, or a window size supplied for an algorithm without one.
    InvalidParameterCombination { param: CompressionParam },
    /// The underlying codec's writer reported a failure. Compressing into
    /// memory cannot fail with the codecs this library binds, so the
    /// dispatcher's contract promises success once validation passes; the
    /// variant remains the surface for a writer failure.
    CodecIO { message: String },
}

/// An error from the decoder dispatcher.
#[derive(Clone, Debug, PartialEq, Eq)]
pub enum DecodeError {
    /// More than one algorithm flag was set.
    AmbiguousAlgorithmSelection,
    /// The input was not a binary value; `actual` names the kind received.
    TypeMismatch { actual: String },
    /// The underlying codec's reader reported a failure, e.g. on a
    /// truncated or mismatched stream.
    CodecIO { message: String },
}

/// A string command received a value of a kind it does not support; the
/// commands work on text only, and `actual` names the kind received.
#[derive(Clone, Debug, PartialEq, Eq)]
pub struct UnsupportedInput {
    pub actual: String,
}

impl UnsupportedInput {
    /// A human-readable description of the error.
    pub fn message(&self) -> (r: String)
        ensures
            r@ == "expected string input, found "@ + self.actual@,
    {
        let mut r = "expected string input, found ".to_string();
        r.append(self.actual.as_str());
        r
    }
}

impl EncodeError {
    /// A human-readable description of the error.
    pub fn message(&self) -> (r: String)
        ensures
            self is AmbiguousAlgorithmSelection ==> r@
                == "Only one compression method can be used at a time"@,
            self matches EncodeError::InvalidParameterCombination {
                param: CompressionParam::WindowSize,
            } ==> r@ == "Window size is only for brotli compression"@,
            self matches EncodeError::InvalidParameterCombination {
                param: CompressionParam::Quality,
            } ==> r@ == "Quality level is only between 0 and 11 for brotli, 0 and 9 for flate and zlib"@,
            self matches EncodeError::CodecIO { message } ==> r@ == message@,
    {
        match self {
            EncodeError::AmbiguousAlgorithmSelection => {
                "Only one compression method can be used at a time".to_string()
            },
            EncodeError::InvalidParameterCombination { param: CompressionParam::WindowSize } => {
                "Window size is only for brotli compression".to_string()
            },
            EncodeError::InvalidParameterCombination { param: CompressionParam::Quality } => {
                "Quality level is only between 0 and 11 for brotli, 0 and 9 for flate and zlib".to_string()
            },
            EncodeError::CodecIO { message } => message.clone(),
        }
    }
}

impl DecodeError {
    /// A human-readable description of the error.
    pub fn message(&self) -> (r: String)
        ensures
            self is AmbiguousAlgorithmSelection ==> r@
                == "Only one decompression method can be used at a time"@,
            self matches DecodeError::TypeMismatch { actual } ==> r@ == "expected binary, found "@
                + actual@,
            self matches DecodeError::CodecIO { message } ==> r@ == message@,
    {
        match self {
            DecodeError::AmbiguousAlgorithmSelection => {
                "Only one decompression method can be used at a time".to_string()
            },
            DecodeError::TypeMismatch { actual } => {
                let mut r = "expected binary, found ".to_string();
                r.append(actual.as_str());
                r
            },
            DecodeError::CodecIO { message } => message.clone(),
        }
    }
}

} // verus!
