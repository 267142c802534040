//! The capability that every fingerprinted type has, and the leaf types.
//!
//! A leaf's fingerprint is the ordered combination of a permanent label chosen
//! by hand for it, never a name that a compiler makes up.

use vstd::prelude::*;
use crate::combine::{combine_seq, seq_fp};

verus! {

/// A type whose structural fingerprint can be computed without an instance.
///
/// Leaves combine a fixed label; containers combine one fixed label per type
/// constructor with their arguments' fingerprints, so a fingerprint depends on
/// shape alone and never on the names of the types held. Records and unions
/// implement `freeze` with `record_freeze` and `union_freeze`.
pub trait Freezable {
    /// The structural fingerprint of the type. Each impl in this crate states
    /// its own; for an impl that does not, nothing is known of it.
    closed spec fn fingerprint() -> u64 {
        arbitrary()
    }

    /// Returns the structural fingerprint of the type.
    fn freeze() -> (r: u64)
        ensures
            r == Self::fingerprint(),
    ;
}

/// The fingerprint of a leaf: the ordered combination of its label alone.
pub open spec fn leaf_fp(label: Seq<char>) -> u64 {
    seq_fp(label, Seq::empty())
}

/// Returns the fingerprint of a leaf with the given label.
pub fn leaf_freeze(label: &str) -> (r: u64)
    ensures
        r == leaf_fp(label@),
{
    let values: Vec<u64> = Vec::new();
    combine_seq(label, values.as_slice())
}

impl Freezable for u8 {
    open spec fn fingerprint() -> u64 {
        leaf_fp("u8"@)
    }

    fn freeze() -> (r: u64) {
        leaf_freeze("u8")
    }
}

impl Freezable for u16 {
    open spec fn fingerprint() -> u64 {
        leaf_fp("u16"@)
    }

    fn freeze() -> (r: u64) {
        leaf_freeze("u16")
    }
}

impl Freezable for u32 {
    open spec fn fingerprint() -> u64 {
        leaf_fp("u32"@)
    }

    fn freeze() -> (r: u64) {
        leaf_freeze("u32")
    }
}

impl Freezable for u64 {
    open spec fn fingerprint() -> u64 {
        leaf_fp("u64"@)
    }

    fn freeze() -> (r: u64) {
        leaf_freeze("u64")
    }
}

impl Freezable for u128 {
    open spec fn fingerprint() -> u64 {
        leaf_fp("u128"@)
    }

    fn freeze() -> (r: u64) {
        leaf_freeze("u128")
    }
}

impl Freezable for usize {
    open spec fn fingerprint() -> u64 {
        leaf_fp("usize"@)
    }

    fn freeze() -> (r: u64) {
        leaf_freeze("usize")
    }
}

impl Freezable for i8 {
    open spec fn fingerprint() -> u64 {
        leaf_fp("i8"@)
    }

    fn freeze() -> (r: u64) {
        leaf_freeze("i8")
    }
}

impl Freezable for i16 {
    open spec fn fingerprint() -> u64 {
        leaf_fp("i16"@)
    }

    fn freeze() -> (r: u64) {
        leaf_freeze("i16")
    }
}

impl Freezable for i32 {
    open spec fn fingerprint() -> u64 {
        leaf_fp("i32"@)
    }

    fn freeze() -> (r: u64) {
        leaf_freeze("i32")
    }
}

impl Freezable for i64 {
    open spec fn fingerprint() -> u64 {
        leaf_fp("i64"@)
    }

    fn freeze() -> (r: u64) {
        leaf_freeze("i64")
    }
}

impl Freezable for i128 {
    open spec fn fingerprint() -> u64 {
        leaf_fp("i128"@)
    }

    fn freeze() -> (r: u64) {
        leaf_freeze("i128")
    }
}

impl Freezable for isize {
    open spec fn fingerprint() -> u64 {
        leaf_fp("isize"@)
    }

    fn freeze() -> (r: u64) {
        leaf_freeze("isize")
    }
}

impl Freezable for bool {
    open spec fn fingerprint() -> u64 {
        leaf_fp("bool"@)
    }

    fn freeze() -> (r: u64) {
        leaf_freeze("bool")
    }
}

impl Freezable for char {
    open spec fn fingerprint() -> u64 {
        leaf_fp("char"@)
    }

    fn freeze() -> (r: u64) {
        leaf_freeze("char")
    }
}

impl Freezable for () {
    open spec fn fingerprint() -> u64 {
        leaf_fp("()"@)
    }

    fn freeze() -> (r: u64) {
        leaf_freeze("()")
    }
}

impl Freezable for String {
    open spec fn fingerprint() -> u64 {
        leaf_fp("alloc::string::String"@)
    }

    fn freeze() -> (r: u64) {
        leaf_freeze("alloc::string::String")
    }
}

impl Freezable for &str {
    open spec fn fingerprint() -> u64 {
        leaf_fp("&str"@)
    }

    fn freeze() -> (r: u64) {
        leaf_freeze("&str")
    }
}

impl Freezable for core::time::Duration {
    open spec fn fingerprint() -> u64 {
        leaf_fp("core::time::Duration"@)
    }

    fn freeze() -> (r: u64) {
        leaf_freeze("core::time::Duration")
    }
}

impl Freezable for core::cmp::Ordering {
    open spec fn fingerprint() -> u64 {
        leaf_fp("core::cmp::Ordering"@)
    }

    fn freeze() -> (r: u64) {
        leaf_freeze("core::cmp::Ordering")
    }
}

} // verus!
