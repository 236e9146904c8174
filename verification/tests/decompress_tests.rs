use std::io::Write;

use strutils::str_decompress::decompress_brotli;
use strutils::str_decompress::decompress_flate;
use strutils::str_decompress::decompress_zlib;
use strutils::AlgorithmFlags;
use strutils::DecodeError;
use strutils::InputValue;
use strutils::StrCompress;
use strutils::StrDecompress;

const NO_FLAGS: AlgorithmFlags = AlgorithmFlags { brotli: false, flate: false, zlib: false };
const BROTLI: AlgorithmFlags = AlgorithmFlags { brotli: true, flate: false, zlib: false };
const FLATE: AlgorithmFlags = AlgorithmFlags { brotli: false, flate: true, zlib: false };
const ZLIB: AlgorithmFlags = AlgorithmFlags { brotli: false, flate: false, zlib: true };

fn encode(text: &str, flags: AlgorithmFlags, quality: Option<u32>, window: Option<u32>) -> Vec<u8> {
    StrCompress.run(text, flags, quality, window).unwrap()
}

#[test]
fn round_trip_brotli_over_its_quality_domain() {
    let text = "now is the time for all good men to come to the aid of their country";
    for q in 0..=11u32 {
        let enc = encode(text, BROTLI, Some(q), None);
        let dec = StrDecompress.run(&InputValue::Binary(enc), BROTLI).unwrap();
        assert_eq!(dec, text);
    }
}

#[test]
fn round_trip_flate_over_its_quality_domain() {
    let text = "now is the time for all good men to come to the aid of their country";
    for q in 0..=9u32 {
        let enc = encode(text, FLATE, Some(q), None);
        let dec = StrDecompress.run(&InputValue::Binary(enc), FLATE).unwrap();
        assert_eq!(dec, text);
    }
}

#[test]
fn round_trip_zlib_over_its_quality_domain() {
    let text = "now is the time for all good men to come to the aid of their country";
    for q in 0..=9u32 {
        let enc = encode(text, ZLIB, Some(q), None);
        let dec = StrDecompress.run(&InputValue::Binary(enc), ZLIB).unwrap();
        assert_eq!(dec, text);
    }
}

#[test]
fn round_trip_brotli_with_window_sizes() {
    let text = "repetition repetition repetition repetition repetition";
    for w in [10u32, 16, 20, 22, 24] {
        let enc = encode(text, BROTLI, Some(5), Some(w));
        let dec = StrDecompress.run(&InputValue::Binary(enc), BROTLI).unwrap();
        assert_eq!(dec, text);
    }
}

#[test]
fn round_trip_of_non_ascii_text() {
    let text = "Grüße, 世界! Ærøskøbing — наука";
    for flags in [BROTLI, FLATE, ZLIB, NO_FLAGS] {
        let enc = encode(text, flags, None, None);
        let dec = StrDecompress.run(&InputValue::Binary(enc), flags).unwrap();
        assert_eq!(dec, text);
    }
}

#[test]
fn round_trip_of_empty_input() {
    for flags in [BROTLI, FLATE, ZLIB] {
        let enc = encode("", flags, None, None);
        let dec = StrDecompress.run(&InputValue::Binary(enc), flags).unwrap();
        assert_eq!(dec, "");
    }
}

#[test]
fn round_trip_of_large_input() {
    let text = "abcdefgh".repeat(125000);
    assert_eq!(text.len(), 1000000);
    for flags in [BROTLI, FLATE, ZLIB] {
        let enc = encode(&text, flags, None, None);
        let dec = StrDecompress.run(&InputValue::Binary(enc), flags).unwrap();
        assert_eq!(dec, text);
    }
}

#[test]
fn default_algorithm_matches_on_both_sides() {
    // no flag on either side means brotli on both
    let enc = encode("payload", NO_FLAGS, None, None);
    let explicit = encode("payload", BROTLI, None, None);
    assert_eq!(enc, explicit);
    let dec = StrDecompress.run(&InputValue::Binary(enc), NO_FLAGS).unwrap();
    assert_eq!(dec, "payload");
}

#[test]
fn ambiguous_decode_flags_rejected() {
    let enc = encode("payload", BROTLI, None, None);
    let two = AlgorithmFlags { brotli: true, flate: false, zlib: true };
    let three = AlgorithmFlags { brotli: true, flate: true, zlib: true };
    for flags in [two, three] {
        let r = StrDecompress.run(&InputValue::Binary(enc.clone()), flags);
        assert_eq!(r, Err(DecodeError::AmbiguousAlgorithmSelection));
    }
}

#[test]
fn ambiguity_reported_before_type_mismatch() {
    let two = AlgorithmFlags { brotli: true, flate: true, zlib: false };
    let r = StrDecompress.run(&InputValue::Text("not binary".to_string()), two);
    assert_eq!(r, Err(DecodeError::AmbiguousAlgorithmSelection));
}

#[test]
fn non_binary_values_name_their_kind() {
    let cases: Vec<(InputValue, &str)> = vec![
        (InputValue::Text("plain".to_string()), "string"),
        (InputValue::Int(7), "int"),
        (InputValue::Bool(true), "bool"),
        (InputValue::Nothing, "nothing"),
    ];
    for (value, kind) in cases {
        match StrDecompress.run(&value, BROTLI) {
            Err(DecodeError::TypeMismatch { actual }) => assert_eq!(actual, kind),
            other => panic!("expected a type mismatch, got {:?}", other),
        }
    }
}

#[test]
fn type_mismatch_message_names_the_kind() {
    let e = match StrDecompress.run(&InputValue::Int(7), BROTLI) {
        Err(e) => e,
        Ok(_) => panic!("expected an error"),
    };
    assert_eq!(e.message(), "expected binary, found int");
}

#[test]
fn mismatched_algorithm_fails_or_garbles_but_never_panics() {
    let text = "a stream produced by one codec, read by another";
    let pairs = [
        (BROTLI, FLATE),
        (BROTLI, ZLIB),
        (FLATE, BROTLI),
        (FLATE, ZLIB),
        (ZLIB, BROTLI),
        (ZLIB, FLATE),
    ];
    for (enc_flags, dec_flags) in pairs {
        let enc = encode(text, enc_flags, None, None);
        match StrDecompress.run(&InputValue::Binary(enc), dec_flags) {
            Ok(garbled) => assert_ne!(garbled, text),
            Err(e) => assert!(matches!(e, DecodeError::CodecIO { .. })),
        }
    }
}

#[test]
fn truncated_streams_surface_as_codec_errors() {
    let text = "a long enough body that truncation leaves a malformed stream";
    for flags in [ZLIB, BROTLI] {
        let mut enc = encode(text, flags, None, None);
        enc.truncate(enc.len() / 2);
        match StrDecompress.run(&InputValue::Binary(enc), flags) {
            Ok(partial) => assert_ne!(partial, text),
            Err(e) => assert!(matches!(e, DecodeError::CodecIO { .. })),
        }
    }
}

#[test]
fn invalid_utf8_is_replaced_not_rejected() {
    // compress bytes that are not valid UTF-8 by feeding them through the
    // raw decompressors: build a flate stream of invalid UTF-8 by hand
    let bad = vec![0xff, 0xfe, 0x41];
    let mut enc = Vec::new();
    {
        let mut w =
            flate2::write::DeflateEncoder::new(&mut enc, flate2::Compression::new(3));
        w.write_all(&bad).unwrap();
        w.finish().unwrap();
    }
    let dec = StrDecompress.run(&InputValue::Binary(enc), FLATE).unwrap();
    assert_eq!(dec, "\u{fffd}\u{fffd}A");
}

#[test]
fn raw_decompressors_invert_their_compressors() {
    let data = b"raw byte level round trip";
    let enc = strutils::str_compress::do_brotli(
        std::str::from_utf8(data).unwrap(),
        Some(4),
        None,
    )
    .unwrap();
    assert_eq!(decompress_brotli(&enc).unwrap(), data);
    let enc = strutils::str_compress::do_flate(std::str::from_utf8(data).unwrap(), Some(4))
        .unwrap();
    assert_eq!(decompress_flate(&enc).unwrap(), data);
    let enc = strutils::str_compress::do_zlib(std::str::from_utf8(data).unwrap(), Some(4))
        .unwrap();
    assert_eq!(decompress_zlib(&enc).unwrap(), data);
}
