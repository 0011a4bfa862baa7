//! Per-pattern compile flags and the database scan mode, written as plain
//! bitsets and an enum so their meaning is visible to the verifier.

use vstd::prelude::*;

verus! {

/// ignore case while matching
pub const CASELESS_BIT: u32 = 1;

/// `.` also matches a newline
pub const DOTALL_BIT: u32 = 2;

/// `^` and `$` match at line boundaries
pub const MULTILINE_BIT: u32 = 4;

/// report at most one match per pattern
pub const SINGLEMATCH_BIT: u32 = 8;

/// permit expressions that can match the empty string
pub const ALLOWEMPTY_BIT: u32 = 16;

/// validate the scanned input as UTF-8
pub const UTF8_BIT: u32 = 32;

/// use Unicode character properties
pub const UCP_BIT: u32 = 64;

/// approximate, over-matching prefilter mode
pub const PREFILTER_BIT: u32 = 128;

/// report the leftmost start offset of each match
pub const SOM_LEFTMOST_BIT: u32 = 256;

/// the expression is a logical combination of other patterns
pub const COMBINATION_BIT: u32 = 512;

/// never report this pattern's matches
pub const QUIET_BIT: u32 = 1024;

/// A set of per-pattern compile flags, one bit per option.
#[derive(Clone, Copy, Debug, PartialEq, Eq, Structural)]
pub struct Flag {
    /// the raw bit set handed through to the compiler
    pub bits: u32,
}

impl Flag {
    /// The empty flag set.
    pub fn none() -> (f: Flag)
        ensures
            f.bits == 0,
    {
        Flag { bits: 0 }
    }

    /// Builds a flag set from raw bits.
    pub fn from_bits(bits: u32) -> (f: Flag)
        ensures
            f.bits == bits,
    {
        Flag { bits }
    }

    /// The raw bits of this flag set.
    pub fn bits(&self) -> (b: u32)
        ensures
            b == self.bits,
    {
        self.bits
    }

    /// The union of two flag sets.
    pub fn union(self, other: Flag) -> (f: Flag)
        ensures
            f.bits == self.bits | other.bits,
    {
        Flag { bits: self.bits | other.bits }
    }

    /// Whether every bit of `other` is set in `self`.
    pub fn contains(self, other: Flag) -> (r: bool)
        ensures
            r == (self.bits & other.bits == other.bits),
    {
        self.bits & other.bits == other.bits
    }

    /// ignore case while matching
    pub fn caseless() -> (f: Flag)
        ensures
            f.bits == CASELESS_BIT,
    {
        Flag { bits: CASELESS_BIT }
    }

    /// `.` also matches a newline
    pub fn dotall() -> (f: Flag)
        ensures
            f.bits == DOTALL_BIT,
    {
        Flag { bits: DOTALL_BIT }
    }

    /// `^` and `$` match at line boundaries
    pub fn multiline() -> (f: Flag)
        ensures
            f.bits == MULTILINE_BIT,
    {
        Flag { bits: MULTILINE_BIT }
    }

    /// report at most one match per pattern
    pub fn singlematch() -> (f: Flag)
        ensures
            f.bits == SINGLEMATCH_BIT,
    {
        Flag { bits: SINGLEMATCH_BIT }
    }

    /// permit expressions that can match the empty string
    pub fn allowempty() -> (f: Flag)
        ensures
            f.bits == ALLOWEMPTY_BIT,
    {
        Flag { bits: ALLOWEMPTY_BIT }
    }

    /// validate the scanned input as UTF-8
    pub fn utf8() -> (f: Flag)
        ensures
            f.bits == UTF8_BIT,
    {
        Flag { bits: UTF8_BIT }
    }

    /// use Unicode character properties
    pub fn ucp() -> (f: Flag)
        ensures
            f.bits == UCP_BIT,
    {
        Flag { bits: UCP_BIT }
    }

    /// approximate, over-matching prefilter mode
    pub fn prefilter() -> (f: Flag)
        ensures
            f.bits == PREFILTER_BIT,
    {
        Flag { bits: PREFILTER_BIT }
    }

    /// report the leftmost start offset of each match
    pub fn som_leftmost() -> (f: Flag)
        ensures
            f.bits == SOM_LEFTMOST_BIT,
    {
        Flag { bits: SOM_LEFTMOST_BIT }
    }

    /// the expression is a logical combination of other patterns
    pub fn combination() -> (f: Flag)
        ensures
            f.bits == COMBINATION_BIT,
    {
        Flag { bits: COMBINATION_BIT }
    }

    /// never report this pattern's matches
    pub fn quiet() -> (f: Flag)
        ensures
            f.bits == QUIET_BIT,
    {
        Flag { bits: QUIET_BIT }
    }
}

impl Default for Flag {
    /// The default flag set requests nothing: no bit is set.
    fn default() -> (f: Flag)
        ensures
            f.bits == 0,
    {
        Flag { bits: 0 }
    }
}

/// How a database is compiled to scan: one complete buffer per call, a
/// stream of chunks with state carried between calls, or a sequence of
/// discontiguous buffers treated as one logical stream.
#[derive(Clone, Copy, Debug, PartialEq, Eq, Structural)]
pub enum ScanMode {
    /// scan one complete buffer per call
    Block,
    /// scan successive chunks, carrying match state between calls
    Stream,
    /// scan a sequence of discontiguous buffers as one logical stream
    Vectored,
}

/// The numeric mode value the engine expects for each scan mode.
pub open spec fn mode_bits_of(m: ScanMode) -> u32 {
    match m {
        ScanMode::Block => 1,
        ScanMode::Stream => 2,
        ScanMode::Vectored => 4,
    }
}

impl ScanMode {
    /// The numeric mode value the engine expects.
    pub fn bits(self) -> (b: u32)
        ensures
            b == mode_bits_of(self),
    {
        match self {
            ScanMode::Block => 1,
            ScanMode::Stream => 2,
            ScanMode::Vectored => 4,
        }
    }
}

} // verus!
