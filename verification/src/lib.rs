pub mod bits;
pub mod encode;
pub mod err_corr;
pub mod gf;
pub mod matrix;
pub mod penalty;
pub mod structure;
pub mod tables;

use vstd::prelude::*;

verus! {

/// Error-correction level of a symbol, in increasing order of redundancy.
#[derive(Debug, Clone, Copy, PartialEq, Eq, PartialOrd, Ord, Structural)]
pub enum ErrorCorrectLv {
    L,
    M,
    Q,
    H,
}

/// Encoding mode of the data payload.
#[derive(Debug, Clone, Copy, PartialEq, Eq, Structural)]
pub enum Mode {
    Numeric,
    Alphanumeric,
    Bytes,
    Kanji,
}

impl Mode {
    /// The value of the 4-bit mode indicator that opens the bit stream.
    pub open spec fn spec_indicator(self) -> u8 {
        match self {
            Mode::Numeric => 1,
            Mode::Alphanumeric => 2,
            Mode::Bytes => 4,
            Mode::Kanji => 8,
        }
    }

    /// The value of the 4-bit mode indicator that opens the bit stream.
    pub fn indicator(self) -> (r: u8)
        ensures
            r == self.spec_indicator(),
    {
        match self {
            Mode::Numeric => 1,
            Mode::Alphanumeric => 2,
            Mode::Bytes => 4,
            Mode::Kanji => 8,
        }
    }
}

/// A symbol version; the field stores the version number minus one, so it
/// doubles as the index into the per-version tables.
#[derive(Debug, Clone, Copy, PartialEq, Eq, Structural)]
pub struct Version(pub u8);

impl Version {
    /// The stored index names one of the 40 defined versions.
    pub open spec fn wf(self) -> bool {
        self.0 <= 39
    }

    /// The version with the given number, 1 to 40.
    pub fn new(v: u8) -> (r: Self)
        requires
            1 <= v <= 40,
        ensures
            r.0 == v - 1,
            r.wf(),
    {
        Version(v - 1)
    }

    /// The version number, 1 to 40.
    pub fn version(self) -> (r: u8)
        requires
            self.wf(),
        ensures
            r == self.0 + 1,
    {
        self.0 + 1
    }
}

} // verus!
