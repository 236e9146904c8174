//! The encoder dispatcher: validate the parameter combination, resolve the
//! algorithm, and stream the stringified input through the selected codec.
//!
//! Validation happens before any codec is invoked, in a fixed order, so a
//! rejected request never produces partial output.
use vstd::prelude::*;

use crate::algorithm::Algorithm;
use crate::algorithm::AlgorithmFlags;
use crate::codec::brotli_compressed;
use crate::codec::brotli_decompressed;
use crate::codec::decoded_bytes;
use crate::codec::encoded_bytes;
use crate::codec::flate_compressed;
use crate::codec::flate_decompressed;
use crate::codec::resolved_quality;
use crate::codec::resolved_window_size;
use crate::codec::zlib_compressed;
use crate::codec::zlib_decompressed;
use crate::codec::DEFAULT_QUALITY;
use crate::codec::DEFAULT_WINDOW_SIZE;
use crate::error::CompressionParam;
use crate::error::EncodeError;
use vstd::utf8::encode_utf8;

verus! {

/// Size of the fixed intermediate buffer the brotli writer streams through.
const BUFFER_SIZE: usize = 65536;

/// First validation step: a window size is meaningful only to brotli, so one
/// supplied alongside a flate or zlib flag is rejected.
pub open spec fn window_size_rejected(flags: AlgorithmFlags, window_size: Option<u32>) -> bool {
    window_size is Some && (flags.flate || flags.zlib)
}

/// Second validation step: a supplied quality must lie in the domain of the
/// algorithm its flag points at: 0-11 for brotli (also the default when no
/// flag is set), 0-9 for flate and zlib.
pub open spec fn quality_rejected(flags: AlgorithmFlags, quality: Option<u32>) -> bool {
    match quality {
        Some(q) => ((flags.flate || flags.zlib) && q > 9) || ((flags.brotli || (!flags.flate
            && !flags.zlib)) && q > 11),
        None => false,
    }
}

/// The validation error, if any, the encoder reports before invoking any
/// codec. The checks run in a fixed order for deterministic reporting:
/// window size, then quality, then ambiguity of the flag set.
pub open spec fn encode_validation_error(
    flags: AlgorithmFlags,
    quality: Option<u32>,
    window_size: Option<u32>,
) -> Option<EncodeError> {
    if window_size_rejected(flags, window_size) {
        Some(EncodeError::InvalidParameterCombination { param: CompressionParam::WindowSize })
    } else if quality_rejected(flags, quality) {
        Some(EncodeError::InvalidParameterCombination { param: CompressionParam::Quality })
    } else if flags.is_ambiguous() {
        Some(EncodeError::AmbiguousAlgorithmSelection)
    } else {
        None
    }
}

/// Relies on brotli::CompressorWriter writing into a Vec: compression into
/// memory always succeeds (a Vec sink cannot fail a write, and the encoder
/// errs only on misuse of its streaming interface), the output is a
/// function of the input bytes, quality and window size alone (the encoder
/// clamps quality to 0-11 and window size to 10-24 internally), and, brotli
/// being lossless, the stream decompresses back to the exact input.
#[verifier::external_body]
fn brotli_compress_raw(data: &[u8], quality: u32, window_size: u32) -> (r: Result<Vec<u8>, String>)
    ensures
        r is Ok,
        r matches Ok(out) ==> out@ == brotli_compressed(data@, quality, window_size),
        r matches Ok(out) ==> brotli_decompressed(out@) == Some(data@),
{
    let mut out: Vec<u8> = Vec::new();
    let mut writer = brotli::CompressorWriter::new(&mut out, BUFFER_SIZE, quality, window_size);
    if let Err(e) = std::io::Write::write_all(&mut writer, data) {
        return Err(format!("{}", e));
    }
    if let Err(e) = std::io::Write::flush(&mut writer) {
        return Err(format!("{}", e));
    }
    drop(writer);
    Ok(out)
}

/// Relies on flate2::write::DeflateEncoder writing into a Vec. The quality
/// bound keeps to the codec's documented 0-9 domain: the backend asserts
/// the level bound in builds with debug assertions, so levels beyond it are
/// not claimed. Within the domain, compression into memory always succeeds
/// (a Vec sink cannot fail a write and the backend never errs while
/// compressing), the stream is a function of the input bytes and quality
/// alone, and, deflate being lossless, it decompresses back to the exact
/// input.
#[verifier::external_body]
fn flate_compress_raw(data: &[u8], quality: u32) -> (r: Result<Vec<u8>, String>)
    requires
        quality <= 9,
    ensures
        r is Ok,
        r matches Ok(out) ==> out@ == flate_compressed(data@, quality),
        r matches Ok(out) ==> flate_decompressed(out@) == Some(data@),
{
    let mut out: Vec<u8> = Vec::new();
    let mut writer = flate2::write::DeflateEncoder::new(&mut out, flate2::Compression::new(quality));
    if let Err(e) = std::io::Write::write_all(&mut writer, data) {
        return Err(format!("{}", e));
    }
    if let Err(e) = writer.finish() {
        return Err(format!("{}", e));
    }
    Ok(out)
}

/// Relies on flate2::write::ZlibEncoder writing into a Vec. The quality
/// bound keeps to the codec's documented 0-9 domain: the backend asserts
/// the level bound in builds with debug assertions, so levels beyond it are
/// not claimed. Within the domain, compression into memory always succeeds
/// (a Vec sink cannot fail a write and the backend never errs while
/// compressing), the zlib-framed stream is a function of the input bytes
/// and quality alone, and, zlib being lossless, it decompresses back to the
/// exact input.
#[verifier::external_body]
fn zlib_compress_raw(data: &[u8], quality: u32) -> (r: Result<Vec<u8>, String>)
    requires
        quality <= 9,
    ensures
        r is Ok,
        r matches Ok(out) ==> out@ == zlib_compressed(data@, quality),
        r matches Ok(out) ==> zlib_decompressed(out@) == Some(data@),
{
    let mut out: Vec<u8> = Vec::new();
    let mut writer = flate2::write::ZlibEncoder::new(&mut out, flate2::Compression::new(quality));
    if let Err(e) = std::io::Write::write_all(&mut writer, data) {
        return Err(format!("{}", e));
    }
    if let Err(e) = writer.finish() {
        return Err(format!("{}", e));
    }
    Ok(out)
}

/// Compress the stringified input with brotli, defaulting quality and window
/// size where absent. Compression into memory always succeeds, and the
/// produced stream decompresses back to the input's UTF-8 bytes.
pub fn do_brotli(input: &str, quality: Option<u32>, window_size: Option<u32>) -> (r: Result<
    Vec<u8>,
    EncodeError,
>)
    ensures
        r matches Ok(out) && out@ == brotli_compressed(
            encode_utf8(input@),
            resolved_quality(quality),
            resolved_window_size(window_size),
        ) && brotli_decompressed(out@) == Some(encode_utf8(input@)),
{
    let q = match quality {
        Some(q) => q,
        None => DEFAULT_QUALITY,
    };
    let w = match window_size {
        Some(w) => w,
        None => DEFAULT_WINDOW_SIZE,
    };
    match brotli_compress_raw(input.as_bytes(), q, w) {
        Ok(out) => Ok(out),
        Err(message) => Err(EncodeError::CodecIO { message }),
    }
}

/// Compress the stringified input as a raw deflate stream, defaulting
/// quality where absent. A supplied quality must lie in the codec's 0-9
/// domain, which `StrCompress::run` validates before routing here; within
/// it, compression into memory always succeeds, and the produced stream
/// decompresses back to the input's UTF-8 bytes.
pub fn do_flate(input: &str, quality: Option<u32>) -> (r: Result<Vec<u8>, EncodeError>)
    requires
        resolved_quality(quality) <= 9,
    ensures
        r matches Ok(out) && out@ == flate_compressed(
            encode_utf8(input@),
            resolved_quality(quality),
        ) && flate_decompressed(out@) == Some(encode_utf8(input@)),
{
    let q = match quality {
        Some(q) => q,
        None => DEFAULT_QUALITY,
    };
    match flate_compress_raw(input.as_bytes(), q) {
        Ok(out) => Ok(out),
        Err(message) => Err(EncodeError::CodecIO { message }),
    }
}

/// Compress the stringified input as a zlib-framed stream, defaulting
/// quality where absent. A supplied quality must lie in the codec's 0-9
/// domain, which `StrCompress::run` validates before routing here; within
/// it, compression into memory always succeeds, and the produced stream
/// decompresses back to the input's UTF-8 bytes.
pub fn do_zlib(input: &str, quality: Option<u32>) -> (r: Result<Vec<u8>, EncodeError>)
    requires
        resolved_quality(quality) <= 9,
    ensures
        r matches Ok(out) && out@ == zlib_compressed(
            encode_utf8(input@),
            resolved_quality(quality),
        ) && zlib_decompressed(out@) == Some(encode_utf8(input@)),
{
    let q = match quality {
        Some(q) => q,
        None => DEFAULT_QUALITY,
    };
    match zlib_compress_raw(input.as_bytes(), q) {
        Ok(out) => Ok(out),
        Err(message) => Err(EncodeError::CodecIO { message }),
    }
}

/// The `str compress` command: compress a string to a compressed format.
///
/// The output is the raw codec byte stream, with no framing or algorithm
/// tag: decoding must name the same algorithm out-of-band.
pub struct StrCompress;

impl StrCompress {
    /// The command's name.
    pub fn name(&self) -> (r: String)
        ensures
            r@ == "str compress"@,
    {
        "str compress".to_string()
    }

    /// Encoder dispatcher: validate the parameter combination in a fixed
    /// order (window size, quality, ambiguity), then route the
    /// already-stringified input to the selected codec, defaulting to brotli
    /// when no flag is set. On a validation error no codec is ever invoked;
    /// when validation passes, compression into memory always succeeds, and
    /// the produced stream decompresses, under the same algorithm, back to
    /// the input's UTF-8 bytes.
    pub fn run(
        &self,
        input: &str,
        flags: AlgorithmFlags,
        quality: Option<u32>,
        window_size: Option<u32>,
    ) -> (r: Result<Vec<u8>, EncodeError>)
        ensures
            encode_validation_error(flags, quality, window_size) matches Some(e) ==> r matches Err(
                actual,
            ) && actual == e,
            encode_validation_error(flags, quality, window_size) is None ==> (r matches Ok(out)
                && out@ == encoded_bytes(
                flags.resolved(),
                encode_utf8(input@),
                resolved_quality(quality),
                resolved_window_size(window_size),
            ) && decoded_bytes(flags.resolved(), out@) == Some(encode_utf8(input@))),
    {
        if window_size.is_some() && (flags.flate || flags.zlib) {
            return Err(
                EncodeError::InvalidParameterCombination { param: CompressionParam::WindowSize },
            );
        }
        let quality_out_of_range = match quality {
            Some(q) => ((flags.flate || flags.zlib) && q > 9) || ((flags.brotli || (!flags.flate
                && !flags.zlib)) && q > 11),
            None => false,
        };
        if quality_out_of_range {
            return Err(
                EncodeError::InvalidParameterCombination { param: CompressionParam::Quality },
            );
        }
        match flags.resolve() {
            None => Err(EncodeError::AmbiguousAlgorithmSelection),
            Some(Algorithm::Brotli) => do_brotli(input, quality, window_size),
            Some(Algorithm::Flate) => do_flate(input, quality),
            Some(Algorithm::Zlib) => do_zlib(input, quality),
        }
    }
}

} // verus!
