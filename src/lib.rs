//! Structural fingerprints of types.
//!
//! A fingerprint is a 64-bit value computed from the declared shape of a type:
//! its named fields or variants, the types they hold, fixed sizes, and the
//! positions of positional members. Two types get equal fingerprints when
//! their shapes agree, whatever order their named members were declared in.
//!
//! Leaf types have a fingerprint made from a fixed label; generic containers,
//! arrays, slices, references, pointers and tuples combine one fixed label per
//! constructor with the fingerprints of their arguments in position order;
//! records and tagged unions combine their named members without regard to
//! order (see `derive`). Only shape counts: the names of the types held never
//! enter a fingerprint.

pub mod combine;
pub mod containers;
pub mod derive;
pub mod freezable;
pub mod tuples;

pub use combine::{combine_seq, combine_set};
pub use containers::{ConstPtr, MutPtr};
pub use derive::{record_freeze, union_freeze, Field, Member, Peeled, Variant, VariantBody};
pub use freezable::Freezable;
