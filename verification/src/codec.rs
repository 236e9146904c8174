//! The mathematical model of the three codecs.
//!
//! What a codec produces or accepts is not written out here — that would be
//! an unverifiable imitation of the algorithms — but named, and the trusted
//! wrappers in the compress and decompress modules pin the names to the
//! codecs' behaviour: compression is a function of its arguments alone, and
//! a stream a codec produced decompresses back to the exact input.
use vstd::prelude::*;

use crate::algorithm::Algorithm;

verus! {

/// Compression effort used when no quality is supplied.
pub const DEFAULT_QUALITY: u32 = 3;

/// Log2 ring-buffer size used by brotli when no window size is supplied.
pub const DEFAULT_WINDOW_SIZE: u32 = 20;

/// The bytes brotli produces for `data` at the given quality and log2 window
/// size. Compression into an in-memory buffer is a function of these
/// arguments alone; out-of-range quality and window values are clamped by
/// the codec itself, never rejected.
pub uninterp spec fn brotli_compressed(data: Seq<u8>, quality: u32, window_size: u32) -> Seq<u8>;

/// The bytes the raw deflate codec produces for `data` at the given quality.
pub uninterp spec fn flate_compressed(data: Seq<u8>, quality: u32) -> Seq<u8>;

/// The bytes the zlib codec (deflate in a header + checksum container)
/// produces for `data` at the given quality.
pub uninterp spec fn zlib_compressed(data: Seq<u8>, quality: u32) -> Seq<u8>;

/// What brotli decompression yields for `data`: `None` when the stream is
/// rejected as malformed, otherwise the decompressed bytes. Reading from an
/// in-memory buffer, the outcome is a function of the input bytes alone.
pub uninterp spec fn brotli_decompressed(data: Seq<u8>) -> Option<Seq<u8>>;

/// What raw deflate decompression yields for `data`.
pub uninterp spec fn flate_decompressed(data: Seq<u8>) -> Option<Seq<u8>>;

/// What zlib decompression (header and checksum checked) yields for `data`.
pub uninterp spec fn zlib_decompressed(data: Seq<u8>) -> Option<Seq<u8>>;

/// The message brotli decompression reports for `data` when it rejects the
/// stream: reading from an in-memory buffer, the message, like the outcome,
/// is a function of the input bytes alone.
pub uninterp spec fn brotli_decode_failure(data: Seq<u8>) -> Seq<char>;

/// The message raw deflate decompression reports for `data` it rejects.
pub uninterp spec fn flate_decode_failure(data: Seq<u8>) -> Seq<char>;

/// The message zlib decompression reports for `data` it rejects.
pub uninterp spec fn zlib_decode_failure(data: Seq<u8>) -> Seq<char>;

/// The text lossy UTF-8 conversion makes of `bytes`: invalid sequences
/// become replacement characters instead of failing.
pub uninterp spec fn utf8_lossy(bytes: Seq<u8>) -> Seq<char>;

/// The quality actually passed to a codec: the supplied one, or the default.
pub open spec fn resolved_quality(quality: Option<u32>) -> u32 {
    match quality {
        Some(q) => q,
        None => DEFAULT_QUALITY,
    }
}

/// The window size actually passed to brotli: the supplied one, or the default.
pub open spec fn resolved_window_size(window_size: Option<u32>) -> u32 {
    match window_size {
        Some(w) => w,
        None => DEFAULT_WINDOW_SIZE,
    }
}

/// What routing to `alg` produces for already-stringified input `data`.
pub open spec fn encoded_bytes(alg: Algorithm, data: Seq<u8>, quality: u32, window_size: u32) -> Seq<
    u8,
> {
    match alg {
        Algorithm::Brotli => brotli_compressed(data, quality, window_size),
        Algorithm::Flate => flate_compressed(data, quality),
        Algorithm::Zlib => zlib_compressed(data, quality),
    }
}

/// What the decompressor matching `alg` yields for `data`.
pub open spec fn decoded_bytes(alg: Algorithm, data: Seq<u8>) -> Option<Seq<u8>> {
    match alg {
        Algorithm::Brotli => brotli_decompressed(data),
        Algorithm::Flate => flate_decompressed(data),
        Algorithm::Zlib => zlib_decompressed(data),
    }
}

/// The message the decompressor matching `alg` reports for `data` it rejects.
pub open spec fn decode_failure(alg: Algorithm, data: Seq<u8>) -> Seq<char> {
    match alg {
        Algorithm::Brotli => brotli_decode_failure(data),
        Algorithm::Flate => flate_decode_failure(data),
        Algorithm::Zlib => zlib_decode_failure(data),
    }
}

/// The quality domain of each algorithm: 0-11 for brotli, 0-9 otherwise.
pub open spec fn quality_in_domain(alg: Algorithm, quality: u32) -> bool {
    match alg {
        Algorithm::Brotli => quality <= 11,
        Algorithm::Flate => quality <= 9,
        Algorithm::Zlib => quality <= 9,
    }
}

} // verus!
