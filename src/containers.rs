//! Generic containers: the ordered combination of one fixed label per type
//! constructor with the fingerprints of the type arguments, in position order.
//! An array adds its length as a value of its own; a pointer, mutable or not,
//! combines the label of an immutable pointer.

use vstd::prelude::*;
use crate::combine::{combine_seq, lemma_seq_message_injective, seq_fp, seq_message};
use crate::freezable::Freezable;

verus! {

/// Returns the ordered combination of `label` and one value.
fn freeze1(label: &str, a: u64) -> (r: u64)
    ensures
        r == seq_fp(label@, seq![a]),
{
    let values = vec![a];
    assert(values@ =~= seq![a]);
    combine_seq(label, values.as_slice())
}

/// Returns the ordered combination of `label` and two values.
fn freeze2(label: &str, a: u64, b: u64) -> (r: u64)
    ensures
        r == seq_fp(label@, seq![a, b]),
{
    let values = vec![a, b];
    assert(values@ =~= seq![a, b]);
    combine_seq(label, values.as_slice())
}

/// Declares `core::pin::Pin` so that it can carry a fingerprint.
#[verifier::external_type_specification]
#[verifier::external_body]
#[verifier::reject_recursive_types(T)]
pub struct ExPin<T>(core::pin::Pin<T>);

/// Declares `core::num::Wrapping` so that it can carry a fingerprint.
#[verifier::external_type_specification]
#[verifier::external_body]
#[verifier::reject_recursive_types(T)]
pub struct ExWrapping<T>(core::num::Wrapping<T>);

/// Declares `core::cmp::Reverse` so that it can carry a fingerprint.
#[verifier::external_type_specification]
#[verifier::external_body]
#[verifier::reject_recursive_types(T)]
pub struct ExReverse<T>(core::cmp::Reverse<T>);

/// Declares `core::cell::Cell` so that it can carry a fingerprint.
#[verifier::external_type_specification]
#[verifier::external_body]
#[verifier::reject_recursive_types(T)]
pub struct ExCell<T: ?Sized>(core::cell::Cell<T>);

/// Declares `core::cell::RefCell` so that it can carry a fingerprint.
#[verifier::external_type_specification]
#[verifier::external_body]
#[verifier::reject_recursive_types(T)]
pub struct ExRefCell<T: ?Sized>(core::cell::RefCell<T>);

/// Declares `core::cell::OnceCell` so that it can carry a fingerprint.
#[verifier::external_type_specification]
#[verifier::external_body]
#[verifier::reject_recursive_types(T)]
pub struct ExOnceCell<T>(core::cell::OnceCell<T>);

/// Declares `core::ops::Bound` so that it can carry a fingerprint.
#[verifier::external_type_specification]
#[verifier::external_body]
#[verifier::reject_recursive_types(T)]
pub struct ExBound<T>(core::ops::Bound<T>);

/// Declares `core::task::Poll` so that it can carry a fingerprint.
#[verifier::external_type_specification]
#[verifier::external_body]
#[verifier::reject_recursive_types(T)]
pub struct ExPoll<T>(core::task::Poll<T>);

/// Declares `core::ops::RangeFrom` so that it can carry a fingerprint.
#[verifier::external_type_specification]
#[verifier::external_body]
#[verifier::reject_recursive_types(T)]
pub struct ExRangeFrom<T>(core::ops::RangeFrom<T>);

/// Declares `core::ops::RangeTo` so that it can carry a fingerprint.
#[verifier::external_type_specification]
#[verifier::external_body]
#[verifier::reject_recursive_types(T)]
pub struct ExRangeTo<T>(core::ops::RangeTo<T>);

/// Declares `core::ops::RangeToInclusive` so that it can carry a fingerprint.
#[verifier::external_type_specification]
#[verifier::external_body]
#[verifier::reject_recursive_types(T)]
pub struct ExRangeToInclusive<T>(core::ops::RangeToInclusive<T>);

/// Declares `std::sync::Mutex` so that it can carry a fingerprint.
#[verifier::external_type_specification]
#[verifier::external_body]
#[verifier::reject_recursive_types(T)]
pub struct ExMutex<T: ?Sized>(std::sync::Mutex<T>);

/// Declares `std::sync::RwLock` so that it can carry a fingerprint.
#[verifier::external_type_specification]
#[verifier::external_body]
#[verifier::reject_recursive_types(T)]
pub struct ExRwLock<T: ?Sized>(std::sync::RwLock<T>);

/// Declares `core::iter::Zip` so that it can carry a fingerprint.
#[verifier::external_type_specification]
#[verifier::external_body]
#[verifier::reject_recursive_types(A)]
#[verifier::reject_recursive_types(B)]
pub struct ExZip<A, B>(core::iter::Zip<A, B>);

/// Declares `core::iter::Chain` so that it can carry a fingerprint.
#[verifier::external_type_specification]
#[verifier::external_body]
#[verifier::reject_recursive_types(A)]
#[verifier::reject_recursive_types(B)]
pub struct ExChain<A, B>(core::iter::Chain<A, B>);

/// Declares `core::iter::Map` so that it can carry a fingerprint.
#[verifier::external_type_specification]
#[verifier::external_body]
#[verifier::reject_recursive_types(I)]
#[verifier::reject_recursive_types(F)]
pub struct ExMap<I, F>(core::iter::Map<I, F>);

/// Declares `core::iter::Filter` so that it can carry a fingerprint.
#[verifier::external_type_specification]
#[verifier::external_body]
#[verifier::reject_recursive_types(I)]
#[verifier::reject_recursive_types(P)]
pub struct ExFilter<I, P>(core::iter::Filter<I, P>);

/// Declares `core::iter::Inspect` so that it can carry a fingerprint.
#[verifier::external_type_specification]
#[verifier::external_body]
#[verifier::reject_recursive_types(I)]
#[verifier::reject_recursive_types(F)]
pub struct ExInspect<I, F>(core::iter::Inspect<I, F>);

impl<T: Freezable> Freezable for Box<T> {
    open spec fn fingerprint() -> u64 {
        seq_fp("alloc::boxed::Box"@, seq![T::fingerprint()])
    }

    fn freeze() -> (r: u64) {
        freeze1("alloc::boxed::Box", T::freeze())
    }
}

impl<T: Freezable> Freezable for Vec<T> {
    open spec fn fingerprint() -> u64 {
        seq_fp("alloc::vec::Vec"@, seq![T::fingerprint()])
    }

    fn freeze() -> (r: u64) {
        freeze1("alloc::vec::Vec", T::freeze())
    }
}

impl<T: Freezable> Freezable for std::collections::VecDeque<T> {
    open spec fn fingerprint() -> u64 {
        seq_fp("alloc::collections::vec_deque::VecDeque"@, seq![T::fingerprint()])
    }

    fn freeze() -> (r: u64) {
        freeze1("alloc::collections::vec_deque::VecDeque", T::freeze())
    }
}

impl<T: Freezable> Freezable for std::collections::BTreeSet<T> {
    open spec fn fingerprint() -> u64 {
        seq_fp("alloc::collections::btree::set::BTreeSet"@, seq![T::fingerprint()])
    }

    fn freeze() -> (r: u64) {
        freeze1("alloc::collections::btree::set::BTreeSet", T::freeze())
    }
}

impl<T: Freezable> Freezable for std::rc::Rc<T> {
    open spec fn fingerprint() -> u64 {
        seq_fp("alloc::rc::Rc"@, seq![T::fingerprint()])
    }

    fn freeze() -> (r: u64) {
        freeze1("alloc::rc::Rc", T::freeze())
    }
}

impl<T: Freezable> Freezable for std::sync::Arc<T> {
    open spec fn fingerprint() -> u64 {
        seq_fp("alloc::sync::Arc"@, seq![T::fingerprint()])
    }

    fn freeze() -> (r: u64) {
        freeze1("alloc::sync::Arc", T::freeze())
    }
}

impl<T: Freezable> Freezable for Option<T> {
    open spec fn fingerprint() -> u64 {
        seq_fp("core::option::Option"@, seq![T::fingerprint()])
    }

    fn freeze() -> (r: u64) {
        freeze1("core::option::Option", T::freeze())
    }
}

impl<T: Freezable> Freezable for core::marker::PhantomData<T> {
    open spec fn fingerprint() -> u64 {
        seq_fp("core::marker::PhantomData"@, seq![T::fingerprint()])
    }

    fn freeze() -> (r: u64) {
        freeze1("core::marker::PhantomData", T::freeze())
    }
}

impl<T: Freezable> Freezable for core::mem::ManuallyDrop<T> {
    open spec fn fingerprint() -> u64 {
        seq_fp("core::mem::manually_drop::ManuallyDrop"@, seq![T::fingerprint()])
    }

    fn freeze() -> (r: u64) {
        freeze1("core::mem::manually_drop::ManuallyDrop", T::freeze())
    }
}

impl<T: Freezable> Freezable for core::mem::MaybeUninit<T> {
    open spec fn fingerprint() -> u64 {
        seq_fp("core::mem::maybe_uninit::MaybeUninit"@, seq![T::fingerprint()])
    }

    fn freeze() -> (r: u64) {
        freeze1("core::mem::maybe_uninit::MaybeUninit", T::freeze())
    }
}

impl<T: Freezable> Freezable for core::iter::Rev<T> {
    open spec fn fingerprint() -> u64 {
        seq_fp("core::iter::adapters::rev::Rev"@, seq![T::fingerprint()])
    }

    fn freeze() -> (r: u64) {
        freeze1("core::iter::adapters::rev::Rev", T::freeze())
    }
}

impl<T: Freezable + Clone> Freezable for std::borrow::Cow<'_, T> {
    open spec fn fingerprint() -> u64 {
        seq_fp("alloc::borrow::Cow"@, seq![T::fingerprint()])
    }

    fn freeze() -> (r: u64) {
        freeze1("alloc::borrow::Cow", T::freeze())
    }
}

impl<T: Freezable> Freezable for core::ops::Range<T> {
    open spec fn fingerprint() -> u64 {
        seq_fp("core::ops::range::Range"@, seq![T::fingerprint()])
    }

    fn freeze() -> (r: u64) {
        freeze1("core::ops::range::Range", T::freeze())
    }
}

impl<T: Freezable> Freezable for core::ops::RangeInclusive<T> {
    open spec fn fingerprint() -> u64 {
        seq_fp("core::ops::range::RangeInclusive"@, seq![T::fingerprint()])
    }

    fn freeze() -> (r: u64) {
        freeze1("core::ops::range::RangeInclusive", T::freeze())
    }
}

impl<T: Freezable> Freezable for core::pin::Pin<T> {
    open spec fn fingerprint() -> u64 {
        seq_fp("core::pin::Pin"@, seq![T::fingerprint()])
    }

    fn freeze() -> (r: u64) {
        freeze1("core::pin::Pin", T::freeze())
    }
}

impl<T: Freezable> Freezable for core::num::Wrapping<T> {
    open spec fn fingerprint() -> u64 {
        seq_fp("core::num::wrapping::Wrapping"@, seq![T::fingerprint()])
    }

    fn freeze() -> (r: u64) {
        freeze1("core::num::wrapping::Wrapping", T::freeze())
    }
}

impl<T: Freezable> Freezable for core::cmp::Reverse<T> {
    open spec fn fingerprint() -> u64 {
        seq_fp("core::cmp::Reverse"@, seq![T::fingerprint()])
    }

    fn freeze() -> (r: u64) {
        freeze1("core::cmp::Reverse", T::freeze())
    }
}

impl<T: Freezable> Freezable for core::cell::Cell<T> {
    open spec fn fingerprint() -> u64 {
        seq_fp("core::cell::Cell"@, seq![T::fingerprint()])
    }

    fn freeze() -> (r: u64) {
        freeze1("core::cell::Cell", T::freeze())
    }
}

impl<T: Freezable> Freezable for core::cell::RefCell<T> {
    open spec fn fingerprint() -> u64 {
        seq_fp("core::cell::RefCell"@, seq![T::fingerprint()])
    }

    fn freeze() -> (r: u64) {
        freeze1("core::cell::RefCell", T::freeze())
    }
}

impl<T: Freezable> Freezable for core::cell::OnceCell<T> {
    open spec fn fingerprint() -> u64 {
        seq_fp("core::cell::once::OnceCell"@, seq![T::fingerprint()])
    }

    fn freeze() -> (r: u64) {
        freeze1("core::cell::once::OnceCell", T::freeze())
    }
}

impl<T: Freezable> Freezable for core::ops::Bound<T> {
    open spec fn fingerprint() -> u64 {
        seq_fp("core::ops::range::Bound"@, seq![T::fingerprint()])
    }

    fn freeze() -> (r: u64) {
        freeze1("core::ops::range::Bound", T::freeze())
    }
}

impl<T: Freezable> Freezable for core::task::Poll<T> {
    open spec fn fingerprint() -> u64 {
        seq_fp("core::task::poll::Poll"@, seq![T::fingerprint()])
    }

    fn freeze() -> (r: u64) {
        freeze1("core::task::poll::Poll", T::freeze())
    }
}

impl<T: Freezable> Freezable for core::ops::RangeFrom<T> {
    open spec fn fingerprint() -> u64 {
        seq_fp("core::ops::range::RangeFrom"@, seq![T::fingerprint()])
    }

    fn freeze() -> (r: u64) {
        freeze1("core::ops::range::RangeFrom", T::freeze())
    }
}

impl<T: Freezable> Freezable for core::ops::RangeTo<T> {
    open spec fn fingerprint() -> u64 {
        seq_fp("core::ops::range::RangeTo"@, seq![T::fingerprint()])
    }

    fn freeze() -> (r: u64) {
        freeze1("core::ops::range::RangeTo", T::freeze())
    }
}

impl<T: Freezable> Freezable for core::ops::RangeToInclusive<T> {
    open spec fn fingerprint() -> u64 {
        seq_fp("core::ops::range::RangeToInclusive"@, seq![T::fingerprint()])
    }

    fn freeze() -> (r: u64) {
        freeze1("core::ops::range::RangeToInclusive", T::freeze())
    }
}

impl<T: Freezable> Freezable for std::sync::Mutex<T> {
    open spec fn fingerprint() -> u64 {
        seq_fp("std::sync::mutex::Mutex"@, seq![T::fingerprint()])
    }

    fn freeze() -> (r: u64) {
        freeze1("std::sync::mutex::Mutex", T::freeze())
    }
}

impl<T: Freezable> Freezable for std::sync::RwLock<T> {
    open spec fn fingerprint() -> u64 {
        seq_fp("std::sync::rwlock::RwLock"@, seq![T::fingerprint()])
    }

    fn freeze() -> (r: u64) {
        freeze1("std::sync::rwlock::RwLock", T::freeze())
    }
}

impl<T: Freezable, E: Freezable> Freezable for Result<T, E> {
    open spec fn fingerprint() -> u64 {
        seq_fp("core::result::Result"@, seq![T::fingerprint(), E::fingerprint()])
    }

    fn freeze() -> (r: u64) {
        freeze2("core::result::Result", T::freeze(), E::freeze())
    }
}

impl<T: Freezable, E: Freezable> Freezable for std::collections::BTreeMap<T, E> {
    open spec fn fingerprint() -> u64 {
        seq_fp("alloc::collections::btree::map::BTreeMap"@, seq![T::fingerprint(), E::fingerprint()])
    }

    fn freeze() -> (r: u64) {
        freeze2("alloc::collections::btree::map::BTreeMap", T::freeze(), E::freeze())
    }
}

impl<T: Freezable, E: Freezable> Freezable for core::iter::Zip<T, E> {
    open spec fn fingerprint() -> u64 {
        seq_fp("core::iter::adapters::zip::Zip"@, seq![T::fingerprint(), E::fingerprint()])
    }

    fn freeze() -> (r: u64) {
        freeze2("core::iter::adapters::zip::Zip", T::freeze(), E::freeze())
    }
}

impl<T: Freezable, E: Freezable> Freezable for core::iter::Chain<T, E> {
    open spec fn fingerprint() -> u64 {
        seq_fp("core::iter::adapters::chain::Chain"@, seq![T::fingerprint(), E::fingerprint()])
    }

    fn freeze() -> (r: u64) {
        freeze2("core::iter::adapters::chain::Chain", T::freeze(), E::freeze())
    }
}

impl<T: Freezable, E: Freezable> Freezable for core::iter::Map<T, E> {
    open spec fn fingerprint() -> u64 {
        seq_fp("core::iter::adapters::map::Map"@, seq![T::fingerprint(), E::fingerprint()])
    }

    fn freeze() -> (r: u64) {
        freeze2("core::iter::adapters::map::Map", T::freeze(), E::freeze())
    }
}

impl<T: Freezable, E: Freezable> Freezable for core::iter::Filter<T, E> {
    open spec fn fingerprint() -> u64 {
        seq_fp("core::iter::adapters::filter::Filter"@, seq![T::fingerprint(), E::fingerprint()])
    }

    fn freeze() -> (r: u64) {
        freeze2("core::iter::adapters::filter::Filter", T::freeze(), E::freeze())
    }
}

impl<T: Freezable, E: Freezable> Freezable for core::iter::Inspect<T, E> {
    open spec fn fingerprint() -> u64 {
        seq_fp("core::iter::adapters::inspect::Inspect"@, seq![T::fingerprint(), E::fingerprint()])
    }

    fn freeze() -> (r: u64) {
        freeze2("core::iter::adapters::inspect::Inspect", T::freeze(), E::freeze())
    }
}

impl<T: Freezable, const N: usize> Freezable for [T; N] {
    open spec fn fingerprint() -> u64 {
        seq_fp("Array"@, seq![N as u64, T::fingerprint()])
    }

    fn freeze() -> (r: u64) {
        freeze2("Array", N as u64, T::freeze())
    }
}

impl<T: Freezable> Freezable for [T] {
    open spec fn fingerprint() -> u64 {
        seq_fp("Slice"@, seq![T::fingerprint()])
    }

    fn freeze() -> (r: u64) {
        freeze1("Slice", T::freeze())
    }
}

impl<T: Freezable> Freezable for &T {
    open spec fn fingerprint() -> u64 {
        seq_fp("Ref"@, seq![T::fingerprint()])
    }

    fn freeze() -> (r: u64) {
        freeze1("Ref", T::freeze())
    }
}

impl<T: Freezable> Freezable for &[T] {
    open spec fn fingerprint() -> u64 {
        seq_fp("Ref"@, seq![<[T]>::fingerprint()])
    }

    fn freeze() -> (r: u64) {
        freeze1("Ref", <[T]>::freeze())
    }
}

/// Stands for the pointer type `*const T`: a pointer's shape is its pointee's.
pub struct ConstPtr<T> {
    pointee: core::marker::PhantomData<T>,
}

/// Stands for the pointer type `*mut T`. Mutability is not part of a shape, so
/// it has the fingerprint of `ConstPtr<T>`.
pub struct MutPtr<T> {
    pointee: core::marker::PhantomData<T>,
}

impl<T: Freezable> Freezable for ConstPtr<T> {
    open spec fn fingerprint() -> u64 {
        seq_fp("Pointer"@, seq![T::fingerprint()])
    }

    fn freeze() -> (r: u64) {
        freeze1("Pointer", T::freeze())
    }
}

impl<T: Freezable> Freezable for MutPtr<T> {
    open spec fn fingerprint() -> u64 {
        seq_fp("Pointer"@, seq![T::fingerprint()])
    }

    fn freeze() -> (r: u64) {
        freeze1("Pointer", T::freeze())
    }
}

/// A mutable and an immutable pointer to the same pointee have the same
/// fingerprint.
pub proof fn lemma_pointer_mutability<T: Freezable>()
    ensures
        MutPtr::<T>::fingerprint() == ConstPtr::<T>::fingerprint(),
{
}

/// A container's fingerprint depends on its constructor and its arguments'
/// fingerprints alone: two arguments of equal fingerprint, whatever their
/// names, give `Vec`, `Result` and every other container the same fingerprint.
pub proof fn lemma_container_shape<T: Freezable, U: Freezable, E: Freezable>()
    requires
        T::fingerprint() == U::fingerprint(),
    ensures
        Vec::<T>::fingerprint() == Vec::<U>::fingerprint(),
        Result::<T, E>::fingerprint() == Result::<U, E>::fingerprint(),
        Result::<E, T>::fingerprint() == Result::<E, U>::fingerprint(),
        <(T, E)>::fingerprint() == <(U, E)>::fingerprint(),
        <[T; 4]>::fingerprint() == <[U; 4]>::fingerprint(),
{
}

/// A carrier's arguments count by position: `Result<T, E>` and `Result<E, T>`
/// hash different messages when `T` and `E` have different fingerprints.
pub proof fn lemma_carrier_order<T: Freezable, E: Freezable>()
    requires
        T::fingerprint() != E::fingerprint(),
    ensures
        seq_message("core::result::Result"@, seq![T::fingerprint(), E::fingerprint()])
            != seq_message("core::result::Result"@, seq![E::fingerprint(), T::fingerprint()]),
{
    let l = "core::result::Result"@;
    let a = seq![T::fingerprint(), E::fingerprint()];
    let b = seq![E::fingerprint(), T::fingerprint()];
    if seq_message(l, a) == seq_message(l, b) {
        lemma_seq_message_injective(l, a, l, b);
        assert(a[0] == b[0]);
    }
}

/// An array's length and element type count: arrays of different lengths, or
/// of element types with different fingerprints, hash different messages.
pub proof fn lemma_array_shape<T: Freezable, U: Freezable, const N: usize, const M: usize>()
    requires
        N != M || T::fingerprint() != U::fingerprint(),
    ensures
        seq_message("Array"@, seq![N as u64, T::fingerprint()]) != seq_message(
            "Array"@,
            seq![M as u64, U::fingerprint()],
        ),
{
    let a = seq![N as u64, T::fingerprint()];
    let b = seq![M as u64, U::fingerprint()];
    if seq_message("Array"@, a) == seq_message("Array"@, b) {
        lemma_seq_message_injective("Array"@, a, "Array"@, b);
        assert(a[0] == b[0] && a[1] == b[1]);
    }
}

} // verus!
