use frozone::{
    combine_seq, combine_set, record_freeze, union_freeze, ConstPtr, Field, Freezable, MutPtr,
    Peeled, Variant,
};
use frozone::combine::{combine_tagged, combine_words, entry_hash};

/// A record `{ field_a: u64 }`.
struct ContainerSub;

/// A record `{ field_b: u64 }`: the shape of `ContainerSub` under another name.
struct OtherSub;

impl Freezable for OtherSub {
    fn freeze() -> u64 {
        record_freeze(&[Field::typed("field_a", u64::freeze())])
    }
}

impl Freezable for ContainerSub {
    fn freeze() -> u64 {
        record_freeze(&[Field::typed("field_a", u64::freeze())])
    }
}

/// A record `{ field_c: T, field_d: Box<T> }`.
struct GenericRecord<T> {
    field_c: std::marker::PhantomData<T>,
}

impl<T: Freezable> Freezable for GenericRecord<T> {
    fn freeze() -> u64 {
        record_freeze(&[
            Field::typed("field_c", T::freeze()),
            Field::typed("field_d", Box::<T>::freeze()),
        ])
    }
}

#[test]
fn u64() {
    assert_eq!(u64::freeze(), 4711862451334276647);
    assert_eq!(std::primitive::u64::freeze(), 4711862451334276647);
}

#[test]
fn derive() {
    let sub = record_freeze(&[Field::typed("field_a", u64::freeze())]);
    let mytype_freeze = record_freeze(&[
        Field::typed("field_a", u64::freeze()),
        Field::typed("field_b", u32::freeze()),
        Field::typed("field_c", u64::freeze()),
        // the C `int` of this platform
        Field::typed("field_d", i32::freeze()),
        Field::typed("field_e", sub),
    ]);
    assert_eq!(mytype_freeze, 5861431272991508562);

    // the fingerprint does not come from the name alone
    let other = record_freeze(&[Field::typed("field_a", u32::freeze())]);
    assert_ne!(other, mytype_freeze);
}

#[test]
fn derive_container() {
    let mytype = record_freeze(&[
        Field::typed("field_c", Vec::<u64>::freeze()),
        Field::typed("field_a", <[u32; 67]>::freeze()),
        Field::typed("field_e", Box::<ContainerSub>::freeze()),
    ]);
    assert_eq!(mytype, 11053726912626770573);
}

#[test]
fn derive_generic() {
    assert_eq!(GenericRecord::<u64>::freeze(), 9782784746810365160);

    let mytype2 = record_freeze(&[Field::typed("field_a", <&[u64]>::freeze())]);
    assert_eq!(mytype2, 12817151127010568685);
}

#[test]
fn derive_ptr() {
    let mytype = record_freeze(&[Field::typed("field_c", ConstPtr::<u8>::freeze())]);
    assert_eq!(mytype, 18054551370875908658);
}

#[test]
fn derive_enum() {
    let mytype = union_freeze(&[
        Variant::unit("Unit"),
        Variant::fields("Unnamed", vec![u64::freeze()]),
        Variant::fields("Unnamed2", vec![u64::freeze(), u32::freeze(), u64::freeze()]),
    ]);
    assert_eq!(mytype, 15974934573951822791);
}

#[test]
fn derive_composite() {
    let _mytype3 = record_freeze(&[Field::typed("a", u64::freeze())]);
    let _mytype2 = union_freeze(&[Variant::unit("MyType3")]);
    let mytype = union_freeze(&[
        Variant::unit("Unit"),
        Variant::fields("Unnamed", vec![u64::freeze()]),
        Variant::unit("MyType2"),
    ]);
    assert_eq!(mytype, 17438168895362026898);
}

#[test]
fn derive_with_assume_frozen_field() {
    // `B(u32)`, `B(i64)` and `B(NonFreezable)`, each fully opaque
    let mytype1 = union_freeze(&[Variant::unit("A"), Variant::opaque("B")]);
    let mytype2 = union_freeze(&[Variant::unit("A"), Variant::opaque("B")]);
    let mytype3 = union_freeze(&[Variant::unit("A"), Variant::opaque("B")]);
    assert_eq!(mytype1, mytype2);
    assert_eq!(mytype3, mytype2);

    let mytype4 = union_freeze(&[Variant::unit("A"), Variant::opaque("OtherVariantName")]);
    assert_ne!(mytype3, mytype4);
}

#[test]
fn derive_with_assume_frozen_variant() {
    // `b: u32`, `b: u64` and `b: NonFreezable`, each fully opaque
    let mytype1 = record_freeze(&[Field::typed("a", u64::freeze()), Field::opaque("b")]);
    let mytype2 = record_freeze(&[Field::typed("a", u64::freeze()), Field::opaque("b")]);
    let mytype3 = record_freeze(&[Field::typed("a", u64::freeze()), Field::opaque("b")]);
    assert_eq!(mytype1, mytype2);
    assert_eq!(mytype3, mytype2);
}

#[test]
fn field_order() {
    let mytype1 = record_freeze(&[Field::typed("a", u64::freeze()), Field::typed("b", u64::freeze())]);
    let mytype2 = record_freeze(&[Field::typed("b", u64::freeze()), Field::typed("a", u64::freeze())]);
    assert_eq!(mytype1, mytype2);
}

#[test]
fn variant_order() {
    let mytype1 = union_freeze(&[
        Variant::fields("B", vec![u32::freeze()]),
        Variant::fields("A", vec![u64::freeze()]),
    ]);
    let mytype2 = union_freeze(&[
        Variant::fields("A", vec![u64::freeze()]),
        Variant::fields("B", vec![u32::freeze()]),
    ]);
    assert_eq!(mytype1, mytype2);
}

#[test]
fn enum_discriminant() {
    let mytype1 = union_freeze(&[Variant::discriminant("A", 1), Variant::discriminant("B", 4)]);
    let mytype2 = union_freeze(&[Variant::discriminant("A", 0 + 1), Variant::discriminant("B", 3)]);
    let mytype3 =
        union_freeze(&[Variant::discriminant("A", 0 + 1), Variant::discriminant("B", 2 + 2)]);
    assert_eq!(mytype1, mytype3);
    assert_ne!(mytype1, mytype2);
}

#[test]
fn enum_variant_inner_type_order() {
    let mytype1 = union_freeze(&[Variant::fields("A", vec![u8::freeze(), u32::freeze()])]);
    let mytype2 = union_freeze(&[Variant::fields("A", vec![u32::freeze(), u8::freeze()])]);
    assert_ne!(mytype1, mytype2);
}

#[test]
fn tuple() {
    let mytype1 = union_freeze(&[
        Variant::fields("A", vec![u32::freeze()]),
        Variant::fields("B", vec![<(u32, u8)>::freeze()]),
        Variant::fields("C", vec![<(u32, u64, (u64, u64, u64, u64))>::freeze()]),
        Variant::fields(
            "D",
            vec![<(u32, u32, u32, u32, u32, u32, u32, u32, u32, u32, u32, u32)>::freeze()],
        ),
    ]);
    assert_eq!(mytype1, 9848347391154371999);
}

#[test]
fn external_generic() {
    let mytype1 = union_freeze(&[Variant::unit("A")]);
    let mytype2 = union_freeze(&[Variant::unit("B"), Variant::unit("C")]);
    assert_ne!(mytype1, mytype2);

    // `a: External1<MyType1>`, fully opaque
    let mytype3 = record_freeze(&[Field::opaque("a")]);
    // `a: External1<MyType2>` and `a: External2<MyType2>`, generics peeled
    let mytype4 = record_freeze(&[Field::peeled("a", Peeled::Generic(vec![mytype2]))]);
    let mytype5 = record_freeze(&[Field::peeled("a", Peeled::Generic(vec![mytype2]))]);
    // `a: External2<MyType1>`, generics peeled
    let mytype6 = record_freeze(&[Field::peeled("a", Peeled::Generic(vec![mytype1]))]);
    assert_ne!(mytype3, mytype4);
    assert_eq!(mytype5, mytype4);
    assert_ne!(mytype5, mytype6);

    let enum3 = union_freeze(&[Variant::opaque("A")]);
    let enum4 = union_freeze(&[Variant::peeled("A", vec![Peeled::Generic(vec![mytype2])])]);
    let enum5 = union_freeze(&[Variant::peeled("A", vec![Peeled::Generic(vec![mytype2])])]);
    let enum6 = union_freeze(&[Variant::peeled("A", vec![Peeled::Generic(vec![mytype1])])]);
    assert_ne!(enum3, enum4);
    assert_eq!(enum5, enum4);
    assert_ne!(enum5, enum6);
}

#[test]
fn field_order_three_fields() {
    let a = record_freeze(&[
        Field::typed("x", u8::freeze()),
        Field::typed("y", u16::freeze()),
        Field::opaque("z"),
    ]);
    let b = record_freeze(&[
        Field::opaque("z"),
        Field::typed("x", u8::freeze()),
        Field::typed("y", u16::freeze()),
    ]);
    assert_eq!(a, b);
}

#[test]
fn array_length_and_element() {
    assert_ne!(<[u32; 67]>::freeze(), <[u32; 68]>::freeze());
    assert_ne!(<[u32; 67]>::freeze(), <[u64; 67]>::freeze());
    assert_eq!(<[u8; 0]>::freeze(), 9530097840222068013);
}

#[test]
fn pointer_mutability() {
    assert_eq!(ConstPtr::<u8>::freeze(), MutPtr::<u8>::freeze());
    assert_ne!(ConstPtr::<u8>::freeze(), ConstPtr::<u16>::freeze());
}

#[test]
fn opaque_field_name_matters() {
    let b = record_freeze(&[Field::typed("a", u64::freeze()), Field::opaque("b")]);
    let c = record_freeze(&[Field::typed("a", u64::freeze()), Field::opaque("c")]);
    assert_ne!(b, c);
}

#[test]
fn peeled_plain_is_opaque() {
    let plain = record_freeze(&[Field::peeled("a", Peeled::Plain)]);
    let opaque = record_freeze(&[Field::opaque("a")]);
    assert_eq!(plain, opaque);
}

#[test]
fn peeled_signature_differs_from_arguments() {
    let func = record_freeze(&[Field::peeled(
        "f",
        Peeled::Func(vec![u32::freeze()], u64::freeze()),
    )]);
    let generic = record_freeze(&[Field::peeled(
        "f",
        Peeled::Generic(vec![u32::freeze(), u64::freeze()]),
    )]);
    assert_ne!(func, generic);
    assert_eq!(entry_hash("f", 1639079876489199865), func);
    let g = record_freeze(&[Field::peeled("g", Peeled::Generic(vec![u64::freeze()]))]);
    assert_eq!(entry_hash("g", 1134882184240416029), g);
}

#[test]
fn discriminant_values() {
    assert_ne!(
        union_freeze(&[Variant::discriminant("A", 1)]),
        union_freeze(&[Variant::discriminant("A", 3)]),
    );
    assert_eq!(combine_tagged(5, &[]), 9777440876872741389);
    assert_eq!(combine_tagged(-1, &[]), 695094959782041094);
    // a unit variant stands on the neutral discriminant zero
    assert_eq!(union_freeze(&[Variant::unit("A")]), entry_hash("A", 8932149140933809816));
}

#[test]
fn empty_composites() {
    assert_eq!(record_freeze(&[]), 0);
    assert_eq!(union_freeze(&[]), 0);
    assert_eq!(combine_set(&[]), 0);
}

#[test]
fn combiner_values() {
    assert_eq!(combine_seq("u64", &[]), 4711862451334276647);
    assert_eq!(combine_words(&[u64::freeze()]), 10687726361039050552);
    assert_eq!(entry_hash("a", 0), 11485705636744751971);
    let set = combine_set(&[("x".to_string(), 1), ("y".to_string(), 2)]);
    assert_eq!(set, 8434040878617809910);
    let swapped = combine_set(&[("y".to_string(), 2), ("x".to_string(), 1)]);
    assert_eq!(swapped, set);
}

#[test]
fn container_values() {
    assert_eq!(Option::<u64>::freeze(), 10273177881545007682);
    assert_eq!(Result::<u64, u32>::freeze(), 10571050582894118422);
    assert_ne!(Result::<u64, u32>::freeze(), Result::<u32, u64>::freeze());
    assert_eq!(<(u8,)>::freeze(), 7783561693746978687);
    assert_eq!(<&str>::freeze(), combine_seq("&str", &[]));
    assert_eq!(
        std::borrow::Cow::<'static, u8>::freeze(),
        combine_seq("alloc::borrow::Cow", &[u8::freeze()])
    );
}

#[test]
fn std_containers() {
    assert_eq!(
        std::collections::BTreeMap::<u8, String>::freeze(),
        combine_seq(
            "alloc::collections::btree::map::BTreeMap",
            &[u8::freeze(), String::freeze()]
        )
    );
    assert_eq!(<[char]>::freeze(), combine_seq("Slice", &[char::freeze()]));
    assert_eq!(<&u8>::freeze(), combine_seq("Ref", &[u8::freeze()]));
    assert_eq!(
        <(u8, u16, u32)>::freeze(),
        combine_seq("Tuple<3>", &[u8::freeze(), u16::freeze(), u32::freeze()])
    );
    assert_ne!(std::rc::Rc::<u8>::freeze(), std::sync::Arc::<u8>::freeze());
    assert_eq!(
        std::cell::RefCell::<u8>::freeze(),
        combine_seq("core::cell::RefCell", &[u8::freeze()])
    );
    assert_ne!(std::sync::Mutex::<u8>::freeze(), std::sync::RwLock::<u8>::freeze());
    assert_ne!(core::ops::Range::<u8>::freeze(), core::ops::Range::<u16>::freeze());
}

#[test]
fn container_fingerprint_ignores_type_names() {
    // two records of one shape under different names
    assert_eq!(ContainerSub::freeze(), OtherSub::freeze());
    assert_eq!(Vec::<ContainerSub>::freeze(), Vec::<OtherSub>::freeze());
    assert_eq!(
        Result::<ContainerSub, u8>::freeze(),
        Result::<OtherSub, u8>::freeze()
    );
    assert_eq!(<(ContainerSub, u8)>::freeze(), <(OtherSub, u8)>::freeze());
}

#[test]
fn tuple_label_per_arity() {
    assert_eq!(<(u8,)>::freeze(), combine_seq("Tuple<1>", &[u8::freeze()]));
    assert_ne!(<(u8, u8)>::freeze(), <(u8,)>::freeze());
    assert_ne!(<(u8, u16)>::freeze(), <(u16, u8)>::freeze());
}

#[test]
fn peeled_plain_variant_is_opaque() {
    let peeled = union_freeze(&[Variant::peeled("A", vec![Peeled::Plain])]);
    let opaque = union_freeze(&[Variant::opaque("A")]);
    assert_eq!(peeled, opaque);
    let generic =
        union_freeze(&[Variant::peeled("A", vec![Peeled::Plain, Peeled::Generic(vec![u8::freeze()])])]);
    assert_ne!(generic, opaque);
}

#[test]
fn discriminant_with_fields() {
    let v = union_freeze(&[Variant::discriminant_fields("A", 2, vec![u64::freeze()])]);
    assert_eq!(v, entry_hash("A", 4916654882216010709));
    assert_eq!(
        union_freeze(&[Variant::discriminant_fields("A", 0, vec![u64::freeze()])]),
        union_freeze(&[Variant::fields("A", vec![u64::freeze()])])
    );
}
