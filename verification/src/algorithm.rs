//! Algorithm selection: three caller-supplied boolean flags resolved into a
//! single codec choice, with multi-selection rejected.
use vstd::prelude::*;

verus! {

/// The three compression algorithms the dispatcher can route to.
#[derive(Clone, Copy, Debug, PartialEq, Eq, Structural)]
pub enum Algorithm {
    /// Large-window general-purpose compressor; quality 0-11, tunable window.
    Brotli,
    /// Raw deflate stream, no container framing; quality 0-9.
    Flate,
    /// Deflate wrapped in a zlib header + checksum container; quality 0-9.
    Zlib,
}

/// The raw flag set a caller supplies: one independent boolean per algorithm.
/// At most one flag may be set; no flag set means the default ([`Algorithm::Brotli`]).
#[derive(Clone, Copy, Debug, PartialEq, Eq, Structural)]
pub struct AlgorithmFlags {
    pub brotli: bool,
    pub flate: bool,
    pub zlib: bool,
}

impl AlgorithmFlags {
    /// How many of the three flags are set.
    pub open spec fn flag_count(self) -> int {
        (if self.brotli {
            1int
        } else {
            0int
        }) + (if self.flate {
            1int
        } else {
            0int
        }) + (if self.zlib {
            1int
        } else {
            0int
        })
    }

    /// More than one flag set: the selection is rejected, never silently resolved.
    pub open spec fn is_ambiguous(self) -> bool {
        self.flag_count() >= 2
    }

    /// The algorithm an unambiguous flag set selects; no flag set defaults to brotli.
    pub open spec fn resolved(self) -> Algorithm {
        if self.flate {
            Algorithm::Flate
        } else if self.zlib {
            Algorithm::Zlib
        } else {
            Algorithm::Brotli
        }
    }

    /// Resolve the flag set into a single algorithm, rejecting multi-selection.
    pub fn resolve(self) -> (r: Option<Algorithm>)
        ensures
            self.is_ambiguous() <==> r is None,
            !self.is_ambiguous() ==> r == Some(self.resolved()),
    {
        match (self.brotli, self.flate, self.zlib) {
            (true, false, false) => Some(Algorithm::Brotli),
            (false, true, false) => Some(Algorithm::Flate),
            (false, false, true) => Some(Algorithm::Zlib),
            (false, false, false) => Some(Algorithm::Brotli),
            _ => None,
        }
    }
}

} // verus!
