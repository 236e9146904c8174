//! The decoder dispatcher: route a binary value to the decompressor matching
//! the caller-named algorithm and return the decompressed text.
//!
//! Envelopes carry no algorithm tag, so the caller must name the algorithm
//! that produced the bytes; naming another one yields a codec error or
//! garbage, never a panic. Decompressed bytes become text by lossy UTF-8
//! substitution: decoding never fails solely because of non-UTF-8 content.
use vstd::prelude::*;

use crate::algorithm::Algorithm;
use crate::algorithm::AlgorithmFlags;
use crate::codec::brotli_decode_failure;
use crate::codec::brotli_decompressed;
use crate::codec::decode_failure;
use crate::codec::decoded_bytes;
use crate::codec::flate_decode_failure;
use crate::codec::flate_decompressed;
use crate::codec::utf8_lossy;
use crate::codec::zlib_decode_failure;
use crate::codec::zlib_decompressed;
use crate::error::DecodeError;
use crate::value::InputValue;
use vstd::utf8::decode_utf8;
use vstd::utf8::encode_utf8;
use vstd::utf8::encode_utf8_decode_utf8;
use vstd::utf8::encode_utf8_valid_utf8;
use vstd::utf8::valid_utf8;

verus! {

/// Size of the fixed intermediate buffer the brotli reader streams through.
const BUFFER_SIZE: usize = 65536;

/// Relies on brotli::Decompressor reading from an in-memory cursor: the
/// outcome, and the message of a rejection, are functions of the input
/// bytes alone, and a malformed stream is reported as an error, never a
/// panic or silent truncation.
#[verifier::external_body]
fn brotli_decompress_raw(data: &[u8]) -> (r: Result<Vec<u8>, String>)
    ensures
        r is Ok <==> brotli_decompressed(data@) is Some,
        r matches Ok(out) ==> Some(out@) == brotli_decompressed(data@),
        r matches Err(m) ==> m@ == brotli_decode_failure(data@),
{
    let mut reader = brotli::Decompressor::new(std::io::Cursor::new(data), BUFFER_SIZE);
    let mut out: Vec<u8> = Vec::new();
    match std::io::Read::read_to_end(&mut reader, &mut out) {
        Ok(_) => Ok(out),
        Err(e) => Err(format!("{}", e)),
    }
}

/// Relies on flate2::read::DeflateDecoder reading from an in-memory cursor:
/// the outcome, and the message of a rejection, are functions of the input
/// bytes alone, and a malformed stream is an error, never a panic or
/// silent truncation.
#[verifier::external_body]
fn flate_decompress_raw(data: &[u8]) -> (r: Result<Vec<u8>, String>)
    ensures
        r is Ok <==> flate_decompressed(data@) is Some,
        r matches Ok(out) ==> Some(out@) == flate_decompressed(data@),
        r matches Err(m) ==> m@ == flate_decode_failure(data@),
{
    let mut reader = flate2::read::DeflateDecoder::new(std::io::Cursor::new(data));
    let mut out: Vec<u8> = Vec::new();
    match std::io::Read::read_to_end(&mut reader, &mut out) {
        Ok(_) => Ok(out),
        Err(e) => Err(format!("{}", e)),
    }
}

/// Relies on flate2::read::ZlibDecoder reading from an in-memory cursor:
/// the outcome, and the message of a rejection, are functions of the input
/// bytes alone, and a malformed stream (a wrong header or checksum
/// included) is an error, never a panic or silent truncation.
#[verifier::external_body]
fn zlib_decompress_raw(data: &[u8]) -> (r: Result<Vec<u8>, String>)
    ensures
        r is Ok <==> zlib_decompressed(data@) is Some,
        r matches Ok(out) ==> Some(out@) == zlib_decompressed(data@),
        r matches Err(m) ==> m@ == zlib_decode_failure(data@),
{
    let mut reader = flate2::read::ZlibDecoder::new(std::io::Cursor::new(data));
    let mut out: Vec<u8> = Vec::new();
    match std::io::Read::read_to_end(&mut reader, &mut out) {
        Ok(_) => Ok(out),
        Err(e) => Err(format!("{}", e)),
    }
}

/// Relies on String::from_utf8_lossy: the text is a function of the bytes
/// alone, and valid UTF-8 decodes exactly, with no replacement.
#[verifier::external_body]
fn bytes_to_text_lossy(bytes: &[u8]) -> (r: String)
    ensures
        r@ == utf8_lossy(bytes@),
        valid_utf8(bytes@) ==> r@ == decode_utf8(bytes@),
{
    String::from_utf8_lossy(bytes).into_owned()
}

/// Decompress a brotli stream; a malformed stream surfaces as `CodecIO`
/// carrying the codec's message.
pub fn decompress_brotli(bytes: &[u8]) -> (r: Result<Vec<u8>, DecodeError>)
    ensures
        r is Ok <==> brotli_decompressed(bytes@) is Some,
        r matches Ok(out) ==> Some(out@) == brotli_decompressed(bytes@),
        r matches Err(e) ==> (e matches DecodeError::CodecIO { message } && message@
            == brotli_decode_failure(bytes@)),
{
    match brotli_decompress_raw(bytes) {
        Ok(out) => Ok(out),
        Err(message) => Err(DecodeError::CodecIO { message }),
    }
}

/// Decompress a raw deflate stream; a malformed stream surfaces as
/// `CodecIO` carrying the codec's message.
pub fn decompress_flate(bytes: &[u8]) -> (r: Result<Vec<u8>, DecodeError>)
    ensures
        r is Ok <==> flate_decompressed(bytes@) is Some,
        r matches Ok(out) ==> Some(out@) == flate_decompressed(bytes@),
        r matches Err(e) ==> (e matches DecodeError::CodecIO { message } && message@
            == flate_decode_failure(bytes@)),
{
    match flate_decompress_raw(bytes) {
        Ok(out) => Ok(out),
        Err(message) => Err(DecodeError::CodecIO { message }),
    }
}

/// Decompress a zlib stream; a malformed stream surfaces as `CodecIO`
/// carrying the codec's message.
pub fn decompress_zlib(bytes: &[u8]) -> (r: Result<Vec<u8>, DecodeError>)
    ensures
        r is Ok <==> zlib_decompressed(bytes@) is Some,
        r matches Ok(out) ==> Some(out@) == zlib_decompressed(bytes@),
        r matches Err(e) ==> (e matches DecodeError::CodecIO { message } && message@
            == zlib_decode_failure(bytes@)),
{
    match zlib_decompress_raw(bytes) {
        Ok(out) => Ok(out),
        Err(message) => Err(DecodeError::CodecIO { message }),
    }
}

/// The `str decompress` command: convert compressed data back into a string.
pub struct StrDecompress;

impl StrDecompress {
    /// The command's name.
    pub fn name(&self) -> (r: String)
        ensures
            r@ == "str decompress"@,
    {
        "str decompress".to_string()
    }

    /// Decoder dispatcher: reject an ambiguous flag set, reject any
    /// non-binary value naming its kind, then route the bytes to the
    /// decompressor matching the resolved algorithm (brotli when no flag is
    /// set, matching the encoder's default) and lossily decode the result
    /// as UTF-8. When the decompressed bytes are valid UTF-8 the text is
    /// their exact decoding; with `StrCompress::run`'s contract this yields
    /// the round-trip law, stated in [`lemma_round_trip`].
    pub fn run(&self, input: &InputValue, flags: AlgorithmFlags) -> (r: Result<String, DecodeError>)
        ensures
            flags.is_ambiguous() <==> r matches Err(DecodeError::AmbiguousAlgorithmSelection),
            !flags.is_ambiguous() && !(input is Binary) ==> (r matches Err(
                DecodeError::TypeMismatch { actual },
            ) && actual@ == input.kind_spec()),
            r matches Err(DecodeError::TypeMismatch { actual }) ==> !flags.is_ambiguous() && !(input
                is Binary) && actual@ == input.kind_spec(),
            !flags.is_ambiguous() ==> (input matches InputValue::Binary(b) ==> {
                &&& (r is Ok <==> decoded_bytes(flags.resolved(), b@) is Some)
                &&& (r matches Ok(text) ==> decoded_bytes(flags.resolved(), b@) matches Some(d)
                    ==> text@ == utf8_lossy(d))
                &&& (r matches Ok(text) ==> decoded_bytes(flags.resolved(), b@) matches Some(d)
                    ==> valid_utf8(d) ==> text@ == decode_utf8(d))
                &&& (r matches Err(e) ==> (e matches DecodeError::CodecIO { message } && message@
                    == decode_failure(flags.resolved(), b@)))
            }),
    {
        let alg = match flags.resolve() {
            None => {
                return Err(DecodeError::AmbiguousAlgorithmSelection);
            },
            Some(a) => a,
        };
        let bytes = match input {
            InputValue::Binary(b) => b,
            _ => {
                return Err(DecodeError::TypeMismatch { actual: input.kind_name() });
            },
        };
        let decompressed = match alg {
            Algorithm::Brotli => decompress_brotli(bytes.as_slice()),
            Algorithm::Flate => decompress_flate(bytes.as_slice()),
            Algorithm::Zlib => decompress_zlib(bytes.as_slice()),
        };
        match decompressed {
            Ok(out) => Ok(bytes_to_text_lossy(out.as_slice())),
            Err(e) => Err(e),
        }
    }
}

/// Round-trip law: decoding what the encoder produced, under the same
/// algorithm, returns the original text.
///
/// The hypotheses are exactly what the two dispatchers' contracts give for
/// a successful encode of text `s` and a successful decode of its output
/// `enc`: `StrCompress::run` ensures that `enc` decompresses to `s`'s UTF-8
/// bytes, and `StrDecompress::run` ensures that the returned `text` is the
/// exact UTF-8 decoding of whatever the decompressor yielded, when that is
/// valid UTF-8. Together they force `text == s`, for every algorithm, every
/// quality and every window size the encoder accepts.
pub proof fn lemma_round_trip(alg: Algorithm, s: Seq<char>, enc: Seq<u8>, text: Seq<char>)
    requires
        decoded_bytes(alg, enc) == Some(encode_utf8(s)),
        decoded_bytes(alg, enc) matches Some(d) ==> valid_utf8(d) ==> text == decode_utf8(d),
    ensures
        text == s,
{
    broadcast use encode_utf8_valid_utf8, encode_utf8_decode_utf8;

}

} // verus!
