//! Composite derivation: the fingerprints of records and tagged unions.
//!
//! A record is fingerprinted from its fields and a union from its variants,
//! each as a (name, value) pair of an unordered combination, so declaration
//! order does not matter. A variant's payload is combined in position order.
//! An opacity annotation on a field or variant keeps its name in the
//! fingerprint and hides its declared type, wholly or all but the type's
//! generic arguments.

use vstd::prelude::*;
use vstd::string::*;
use crate::combine::{
    combine_seq, combine_tagged, combine_words, entry_fp, entry_hash, seq_fp, seq_message, sum_by,
    tagged_fp, tagged_message, words_fp, wrap_add, lemma_seq_message_injective,
    lemma_sum_by_permutation, lemma_sum_by_remove, lemma_tagged_message_injective,
};

verus! {

/// The syntactic shape of a declared type under generic peeling, with the
/// fingerprints of the types it is applied to.
pub enum Peeled {
    /// A named type without arguments: there is nothing to peel.
    Plain,
    /// `Outer<A, B, ...>`: the arguments' fingerprints, in order.
    Generic(Vec<u64>),
    /// `Outer(I1, ..., Im) -> O`: the inputs' fingerprints, in order, and the
    /// output's (that of `()` where none is written).
    Func(Vec<u64>, u64),
}

/// What a record field contributes besides its name.
pub enum Member {
    /// No annotation: the fingerprint of the declared type.
    Typed(u64),
    /// Fully opaque: nothing of the declared type.
    Opaque,
    /// Opaque with its generic arguments peeled.
    Peeled(Peeled),
}

/// A record field: its declared name and what it contributes.
pub struct Field {
    pub name: String,
    pub member: Member,
}

/// What a union variant contributes besides its name.
pub enum VariantBody {
    /// No annotation and no explicit discriminant: the payload fields'
    /// fingerprints, in position order (none for a unit variant).
    Fields(Vec<u64>),
    /// No annotation and an explicit discriminant value, with the payload
    /// fields' fingerprints in position order (mostly none). The discriminant
    /// stands where `Fields` has the neutral zero.
    Discriminant(i32, Vec<u64>),
    /// Fully opaque: nothing of the payload.
    Opaque,
    /// Opaque with the generic arguments of each payload type peeled, in
    /// position order. Where no payload type has arguments there is nothing
    /// to peel, and the variant counts as fully opaque.
    Peeled(Vec<Peeled>),
}

/// A union variant: its declared name and what it contributes.
pub struct Variant {
    pub name: String,
    pub body: VariantBody,
}

/// Marks the ordered combination of a generic argument list.
pub open spec fn generic_marker() -> Seq<char> {
    "GenericType"@
}

/// Marks the ordered combination of a function signature.
pub open spec fn func_marker() -> Seq<char> {
    "GenericFunc"@
}

/// The value of a peeled type: neutral for a plain name, else the marked
/// ordered combination of its arguments (a signature's output last).
pub open spec fn peeled_fp(p: Peeled) -> u64 {
    match p {
        Peeled::Plain => 0,
        Peeled::Generic(args) => seq_fp(generic_marker(), args@),
        Peeled::Func(inputs, output) => seq_fp(func_marker(), inputs@.push(output)),
    }
}

/// The value a field contributes beside its name.
pub open spec fn member_fp(m: Member) -> u64 {
    match m {
        Member::Typed(v) => v,
        Member::Opaque => 0,
        Member::Peeled(p) => peeled_fp(p),
    }
}

/// The (name, value) pair of a field, combined.
pub open spec fn field_fp(f: Field) -> u64 {
    entry_fp(f.name@, member_fp(f.member))
}

/// The fingerprint of a record: the unordered combination of its fields.
pub open spec fn record_fp(fields: Seq<Field>) -> u64 {
    sum_by(fields, |f: Field| field_fp(f))
}

/// The values of peeled payload types, in position order.
pub open spec fn peeled_fps(ps: Seq<Peeled>) -> Seq<u64> {
    ps.map_values(|p: Peeled| peeled_fp(p))
}

/// Whether no type among `ps` has anything to peel.
pub open spec fn peels_nothing(ps: Seq<Peeled>) -> bool {
    forall|j: int| 0 <= j < ps.len() ==> ps[j] is Plain
}

/// The value a variant contributes beside its name. A payload stands after
/// the discriminant, or after the neutral zero where none is written.
pub open spec fn variant_body_fp(b: VariantBody) -> u64 {
    match b {
        VariantBody::Fields(payload) => tagged_fp(0, payload@),
        VariantBody::Discriminant(d, payload) => tagged_fp(d, payload@),
        VariantBody::Opaque => 0,
        VariantBody::Peeled(ps) => if peels_nothing(ps@) {
            0
        } else {
            words_fp(peeled_fps(ps@))
        },
    }
}

/// The (name, value) pair of a variant, combined.
pub open spec fn variant_fp(v: Variant) -> u64 {
    entry_fp(v.name@, variant_body_fp(v.body))
}

/// The fingerprint of a tagged union: the unordered combination of its
/// variants.
pub open spec fn union_fp(variants: Seq<Variant>) -> u64 {
    sum_by(variants, |v: Variant| variant_fp(v))
}

impl Field {
    /// A field without annotation, of a type with the given fingerprint.
    pub fn typed(name: &str, fingerprint: u64) -> (r: Field)
        ensures
            r.name@ == name@,
            r.member == Member::Typed(fingerprint),
    {
        Field { name: String::from_str(name), member: Member::Typed(fingerprint) }
    }

    /// A fully opaque field.
    pub fn opaque(name: &str) -> (r: Field)
        ensures
            r.name@ == name@,
            r.member is Opaque,
    {
        Field { name: String::from_str(name), member: Member::Opaque }
    }

    /// An opaque field whose declared type has the given peeled shape.
    pub fn peeled(name: &str, shape: Peeled) -> (r: Field)
        ensures
            r.name@ == name@,
            r.member == Member::Peeled(shape),
    {
        Field { name: String::from_str(name), member: Member::Peeled(shape) }
    }
}

impl Variant {
    /// A variant without annotation or discriminant, with the given payload
    /// fingerprints (none for a unit variant).
    pub fn fields(name: &str, payload: Vec<u64>) -> (r: Variant)
        ensures
            r.name@ == name@,
            r.body == VariantBody::Fields(payload),
    {
        Variant { name: String::from_str(name), body: VariantBody::Fields(payload) }
    }

    /// A unit variant without annotation or discriminant.
    pub fn unit(name: &str) -> (r: Variant)
        ensures
            r.name@ == name@,
            r.body matches VariantBody::Fields(p) && p@.len() == 0,
    {
        Variant { name: String::from_str(name), body: VariantBody::Fields(Vec::new()) }
    }

    /// A variant with an explicit discriminant and no payload.
    pub fn discriminant(name: &str, value: i32) -> (r: Variant)
        ensures
            r.name@ == name@,
            r.body matches VariantBody::Discriminant(d, p) && d == value && p@.len() == 0,
    {
        Variant { name: String::from_str(name), body: VariantBody::Discriminant(value, Vec::new()) }
    }

    /// A variant with an explicit discriminant and the given payload
    /// fingerprints.
    pub fn discriminant_fields(name: &str, value: i32, payload: Vec<u64>) -> (r: Variant)
        ensures
            r.name@ == name@,
            r.body == VariantBody::Discriminant(value, payload),
    {
        Variant { name: String::from_str(name), body: VariantBody::Discriminant(value, payload) }
    }

    /// A fully opaque variant.
    pub fn opaque(name: &str) -> (r: Variant)
        ensures
            r.name@ == name@,
            r.body is Opaque,
    {
        Variant { name: String::from_str(name), body: VariantBody::Opaque }
    }

    /// An opaque variant whose payload types have the given peeled shapes.
    pub fn peeled(name: &str, shapes: Vec<Peeled>) -> (r: Variant)
        ensures
            r.name@ == name@,
            r.body == VariantBody::Peeled(shapes),
    {
        Variant { name: String::from_str(name), body: VariantBody::Peeled(shapes) }
    }
}

/// Returns the value of a peeled type.
pub fn peeled_freeze(p: &Peeled) -> (r: u64)
    ensures
        r == peeled_fp(*p),
{
    match p {
        Peeled::Plain => 0,
        Peeled::Generic(args) => combine_seq("GenericType", args.as_slice()),
        Peeled::Func(inputs, output) => {
            let mut values = inputs.clone();
            values.push(*output);
            proof {
                assert(values@ =~= inputs@.push(*output));
            }
            combine_seq("GenericFunc", values.as_slice())
        },
    }
}

/// Returns the value a field contributes beside its name.
pub fn member_freeze(m: &Member) -> (r: u64)
    ensures
        r == member_fp(*m),
{
    match m {
        Member::Typed(v) => *v,
        Member::Opaque => 0,
        Member::Peeled(p) => peeled_freeze(p),
    }
}

/// Returns the fingerprint of a record with the given fields.
pub fn record_freeze(fields: &[Field]) -> (r: u64)
    ensures
        r == record_fp(fields@),
{
    let mut acc: u64 = 0;
    let mut i: usize = 0;
    while i < fields.len()
        invariant
            i <= fields@.len(),
            acc == record_fp(fields@.subrange(0, i as int)),
        decreases fields@.len() - i,
    {
        let f = &fields[i];
        let v = member_freeze(&f.member);
        let h = entry_hash(f.name.as_str(), v);
        acc = acc.wrapping_add(h);
        proof {
            assert(fields@.subrange(0, i + 1).drop_last() =~= fields@.subrange(0, i as int));
        }
        i = i + 1;
    }
    assert(fields@.subrange(0, i as int) =~= fields@);
    acc
}

/// Returns the value a variant contributes beside its name.
pub fn variant_body_freeze(b: &VariantBody) -> (r: u64)
    ensures
        r == variant_body_fp(*b),
{
    match b {
        VariantBody::Fields(payload) => combine_tagged(0, payload.as_slice()),
        VariantBody::Discriminant(d, payload) => combine_tagged(*d, payload.as_slice()),
        VariantBody::Opaque => 0,
        VariantBody::Peeled(ps) => {
            let mut values: Vec<u64> = Vec::new();
            let mut all_plain = true;
            let mut i: usize = 0;
            while i < ps.len()
                invariant
                    i <= ps@.len(),
                    values@ == peeled_fps(ps@.subrange(0, i as int)),
                    all_plain == peels_nothing(ps@.subrange(0, i as int)),
                decreases ps@.len() - i,
            {
                let v = peeled_freeze(&ps[i]);
                if !matches!(ps[i], Peeled::Plain) {
                    all_plain = false;
                }
                values.push(v);
                proof {
                    assert(values@ =~= peeled_fps(ps@.subrange(0, i + 1)));
                    let next = ps@.subrange(0, i + 1);
                    assert(next[i as int] == ps@[i as int]);
                    assert forall|j: int| 0 <= j < i implies next[j] == ps@.subrange(0, i as int)[j] by {}
                }
                i = i + 1;
            }
            assert(ps@.subrange(0, i as int) =~= ps@);
            if all_plain {
                0
            } else {
                combine_words(values.as_slice())
            }
        },
    }
}

/// Returns the fingerprint of a tagged union with the given variants.
pub fn union_freeze(variants: &[Variant]) -> (r: u64)
    ensures
        r == union_fp(variants@),
{
    let mut acc: u64 = 0;
    let mut i: usize = 0;
    while i < variants.len()
        invariant
            i <= variants@.len(),
            acc == union_fp(variants@.subrange(0, i as int)),
        decreases variants@.len() - i,
    {
        let v = &variants[i];
        let b = variant_body_freeze(&v.body);
        let h = entry_hash(v.name.as_str(), b);
        acc = acc.wrapping_add(h);
        proof {
            assert(variants@.subrange(0, i + 1).drop_last() =~= variants@.subrange(0, i as int));
        }
        i = i + 1;
    }
    assert(variants@.subrange(0, i as int) =~= variants@);
    acc
}

/// The declaration order of a record's fields does not matter: field lists
/// that are permutations of each other give the same fingerprint.
pub proof fn lemma_field_order(a: Seq<Field>, b: Seq<Field>)
    requires
        a.to_multiset() == b.to_multiset(),
    ensures
        record_fp(a) == record_fp(b),
{
    lemma_sum_by_permutation(a, b, |f: Field| field_fp(f));
}

/// The declaration order of a union's variants does not matter: variant lists
/// that are permutations of each other give the same fingerprint.
pub proof fn lemma_variant_order(a: Seq<Variant>, b: Seq<Variant>)
    requires
        a.to_multiset() == b.to_multiset(),
    ensures
        union_fp(a) == union_fp(b),
{
    lemma_sum_by_permutation(a, b, |v: Variant| variant_fp(v));
}

/// A fully opaque field contributes its name and nothing else: the record's
/// fingerprint is that of its other fields plus the pair of that name and zero,
/// whatever type the field was declared with.
pub proof fn lemma_opaque_field(fields: Seq<Field>, i: int)
    requires
        0 <= i < fields.len(),
        fields[i].member is Opaque,
    ensures
        record_fp(fields) == wrap_add(record_fp(fields.remove(i)), entry_fp(fields[i].name@, 0)),
{
    lemma_sum_by_remove(fields, |f: Field| field_fp(f), i);
}

/// A fully opaque variant contributes its name and nothing else: the union's
/// fingerprint is that of its other variants plus the pair of that name and
/// zero, whatever payload the variant was declared with.
pub proof fn lemma_opaque_variant(variants: Seq<Variant>, i: int)
    requires
        0 <= i < variants.len(),
        variants[i].body is Opaque,
    ensures
        union_fp(variants) == wrap_add(
            union_fp(variants.remove(i)),
            entry_fp(variants[i].name@, 0),
        ),
{
    lemma_sum_by_remove(variants, |v: Variant| variant_fp(v), i);
}

/// A member's name counts, opaque or not: a field or variant renamed hashes a
/// different message for its (name, value) pair, whatever the two values, so
/// its pair's fingerprint differs unless SipHash collides.
pub proof fn lemma_member_name(n1: Seq<char>, v1: u64, n2: Seq<char>, v2: u64)
    requires
        n1 != n2,
    ensures
        seq_message(n1, seq![v1]) != seq_message(n2, seq![v2]),
{
    if seq_message(n1, seq![v1]) == seq_message(n2, seq![v2]) {
        lemma_seq_message_injective(n1, seq![v1], n2, seq![v2]);
    }
}

/// Payload position counts: a variant without annotation hashes its payload's
/// fingerprints in order after the neutral discriminant (`variant_body_fp`),
/// and distinct payloads, such as `(a, b)` and `(b, a)` with `a != b`, hash
/// distinct messages.
pub proof fn lemma_payload_order(p: Seq<u64>, q: Seq<u64>)
    requires
        p != q,
    ensures
        tagged_message(0, p) != tagged_message(0, q),
{
    if tagged_message(0, p) == tagged_message(0, q) {
        lemma_tagged_message_injective(0, p, 0, q);
    }
}

/// The discriminant value counts: variants with distinct explicit
/// discriminants hash distinct messages.
pub proof fn lemma_discriminant_value(d1: i32, d2: i32)
    requires
        d1 != d2,
    ensures
        tagged_message(d1, Seq::empty()) != tagged_message(d2, Seq::empty()),
{
    if tagged_message(d1, Seq::empty()) == tagged_message(d2, Seq::empty()) {
        lemma_tagged_message_injective(d1, Seq::empty(), d2, Seq::empty());
    }
}

/// Generic peeling tells arguments apart, and argument lists from
/// signatures: distinct argument fingerprints hash distinct messages, and so
/// do an argument list and a signature of the same length, whatever their
/// fingerprints. The outer type constructor is not an input at all.
pub proof fn lemma_peeled_messages(a: Seq<u64>, b: Seq<u64>)
    requires
        a.len() == b.len(),
    ensures
        a != b ==> seq_message(generic_marker(), a) != seq_message(generic_marker(), b),
        seq_message(generic_marker(), a) != seq_message(func_marker(), b),
{
    reveal_strlit("GenericType");
    reveal_strlit("GenericFunc");
    assert(generic_marker()[7] != func_marker()[7]);
    if seq_message(generic_marker(), a) == seq_message(generic_marker(), b) {
        lemma_seq_message_injective(generic_marker(), a, generic_marker(), b);
    }
    if seq_message(generic_marker(), a) == seq_message(func_marker(), b) {
        lemma_seq_message_injective(generic_marker(), a, func_marker(), b);
    }
}

/// Peeling a bare type name is being fully opaque: a peeled field of a plain
/// named type, and a peeled variant whose payload types are all plain names,
/// contribute what a fully opaque field or variant of the same name does.
pub proof fn lemma_peeled_plain_is_opaque(name: String, ps: Vec<Peeled>)
    requires
        peels_nothing(ps@),
    ensures
        field_fp(Field { name, member: Member::Peeled(Peeled::Plain) }) == field_fp(
            Field { name, member: Member::Opaque },
        ),
        variant_fp(Variant { name, body: VariantBody::Peeled(ps) }) == variant_fp(
            Variant { name, body: VariantBody::Opaque },
        ),
{
}

/// Renaming one field, opaque or not, changes what the record hashes: the
/// field's pair hashes a different message, and the record's fingerprint then
/// differs from the unrenamed one's whenever the two pairs' hashes do, which only a
/// SipHash collision could prevent.
pub proof fn lemma_renamed_field(fields: Seq<Field>, i: int, renamed: Field)
    requires
        0 <= i < fields.len(),
        renamed.member == fields[i].member,
        renamed.name@ != fields[i].name@,
    ensures
        seq_message(fields[i].name@, seq![member_fp(renamed.member)]) != seq_message(
            renamed.name@,
            seq![member_fp(renamed.member)],
        ),
        field_fp(fields[i]) != field_fp(renamed) ==> record_fp(fields) != record_fp(
            fields.update(i, renamed),
        ),
{
    let v = member_fp(renamed.member);
    lemma_member_name(fields[i].name@, v, renamed.name@, v);
    let moved = fields.update(i, renamed);
    lemma_sum_by_remove(fields, |f: Field| field_fp(f), i);
    lemma_sum_by_remove(moved, |f: Field| field_fp(f), i);
    assert(moved.remove(i) =~= fields.remove(i));
}

} // verus!
