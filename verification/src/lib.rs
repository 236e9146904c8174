//! Text-transformation utilities: a compression/decompression codec
//! dispatcher over brotli, raw deflate and zlib, together with a set of
//! small string commands (dedent, indent, wrap, slug, shell quoting and
//! splitting).
//!
//! The compressed output is the raw codec-specific byte stream with no
//! added framing or algorithm tag: callers must remember which algorithm
//! produced a given blob and name the same one when decoding.
mod algorithm;
pub mod codec;
mod error;
mod plugin;
pub mod str_compress;
pub mod str_decompress;
pub mod str_dedent;
pub mod str_indent;
pub mod str_shlquote;
pub mod str_shlsplit;
pub mod str_slug;
pub mod str_wrap;
mod value;

pub use algorithm::Algorithm;
pub use algorithm::AlgorithmFlags;
pub use error::CompressionParam;
pub use error::DecodeError;
pub use error::EncodeError;
pub use error::UnsupportedInput;
pub use plugin::StrutilsPlugin;
pub use str_compress::StrCompress;
pub use str_decompress::StrDecompress;
pub use str_dedent::StrDedent;
pub use str_indent::StrIndent;
pub use str_shlquote::StrShlQuote;
pub use str_shlsplit::StrShlSplit;
pub use str_slug::StrSlug;
pub use str_wrap::StrWrap;
pub use value::InputValue;
