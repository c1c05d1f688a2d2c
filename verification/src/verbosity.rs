//! Log verbosity levels and their threshold semantics.

use vstd::prelude::*;
use crate::lit;

verus! {

/// Log entry verbosity, from critical (`Crit`) to debug (`Debug`).
///
/// The kernel encodes these as the numbers 2 (`Crit`) through 7
/// (`Debug`); an entry is emitted iff its number is at most the
/// threshold's number.
#[derive(Debug, Clone, Copy, PartialEq, Eq, Structural)]
pub enum VerbosityLevel {
    Debug,
    Info,
    Notice,
    Warn,
    Error,
    Crit,
}

/// The kernel's numeric code of a level.
pub open spec fn level_code(l: VerbosityLevel) -> u8 {
    match l {
        VerbosityLevel::Debug => 7,
        VerbosityLevel::Info => 6,
        VerbosityLevel::Notice => 5,
        VerbosityLevel::Warn => 4,
        VerbosityLevel::Error => 3,
        VerbosityLevel::Crit => 2,
    }
}

/// An entry at level `entry` is written iff its code is at most the
/// threshold's code.
pub open spec fn spec_emits(entry: VerbosityLevel, threshold: VerbosityLevel) -> bool {
    level_code(entry) <= level_code(threshold)
}

/// The textual levels accepted on the kernel command line.
pub open spec fn spec_parse_level(s: Seq<u8>) -> Option<VerbosityLevel> {
    if s == lit::spec_debug() {
        Some(VerbosityLevel::Debug)
    } else if s == lit::spec_info() {
        Some(VerbosityLevel::Info)
    } else if s == lit::spec_notice() {
        Some(VerbosityLevel::Notice)
    } else if s == lit::spec_warn() || s == lit::spec_warning() {
        Some(VerbosityLevel::Warn)
    } else if s == lit::spec_err() || s == lit::spec_error() {
        Some(VerbosityLevel::Error)
    } else {
        None
    }
}

impl VerbosityLevel {
    /// The numeric code, 2 through 7.
    pub fn code(&self) -> (c: u8)
        ensures
            c == level_code(*self),
    {
        match self {
            VerbosityLevel::Debug => 7,
            VerbosityLevel::Info => 6,
            VerbosityLevel::Notice => 5,
            VerbosityLevel::Warn => 4,
            VerbosityLevel::Error => 3,
            VerbosityLevel::Crit => 2,
        }
    }

    /// Whether an entry at level `self` passes a threshold.
    pub fn emits_at(&self, threshold: &VerbosityLevel) -> (r: bool)
        ensures
            r == spec_emits(*self, *threshold),
    {
        self.code() <= threshold.code()
    }

    /// Parse a textual level; unknown tokens are rejected.
    pub fn try_from_token(s: &[u8]) -> (r: Option<VerbosityLevel>)
        ensures
            r == spec_parse_level(s@),
    {
        if crate::bytes::bytes_eq(s, lit::lit_debug().as_slice()) {
            Some(VerbosityLevel::Debug)
        } else if crate::bytes::bytes_eq(s, lit::lit_info().as_slice()) {
            Some(VerbosityLevel::Info)
        } else if crate::bytes::bytes_eq(s, lit::lit_notice().as_slice()) {
            Some(VerbosityLevel::Notice)
        } else if crate::bytes::bytes_eq(s, lit::lit_warn().as_slice()) {
            Some(VerbosityLevel::Warn)
        } else if crate::bytes::bytes_eq(s, lit::lit_warning().as_slice()) {
            Some(VerbosityLevel::Warn)
        } else if crate::bytes::bytes_eq(s, lit::lit_err().as_slice()) {
            Some(VerbosityLevel::Error)
        } else if crate::bytes::bytes_eq(s, lit::lit_error().as_slice()) {
            Some(VerbosityLevel::Error)
        } else {
            None
        }
    }
}

impl Default for VerbosityLevel {
    /// The threshold before the command line sets one.
    fn default() -> (r: Self)
        ensures
            r == VerbosityLevel::Info,
    {
        VerbosityLevel::Info
    }
}

} // verus!
