//! The combiner: every fingerprint is a SipHash of a byte message built here.
//!
//! An ordered combination hashes a label followed by values in position order;
//! an unordered combination hashes each (label, value) pair on its own and adds
//! the results, wrapping at 2^64, so that the order of the pairs is lost.

use vstd::prelude::*;
use vstd::string::*;
use vstd::utf8::{encode_utf8, encode_utf8_decode_utf8};

verus! {

/// SipHash-2-4, keyed with two zero words, of a byte sequence.
pub uninterp spec fn siphash_of(bytes: Seq<u8>) -> u64;

/// Relies on `core::hash::SipHasher`: `new` keys it with zeros, `write` feeds it
/// the bytes, and `finish` returns the SipHash-2-4 of everything fed so far.
#[verifier::external_body]
#[allow(deprecated)]
fn siphash(bytes: &[u8]) -> (r: u64)
    ensures
        r == siphash_of(bytes@),
{
    let mut h = core::hash::SipHasher::new();
    core::hash::Hasher::write(&mut h, bytes);
    core::hash::Hasher::finish(&h)
}

/// The `n` low bytes of `v`, least significant first.
pub open spec fn le_bytes(v: nat, n: nat) -> Seq<u8>
    decreases n,
{
    if n == 0 {
        Seq::empty()
    } else {
        seq![(v % 256) as u8] + le_bytes(v / 256, (n - 1) as nat)
    }
}

/// How a 64-bit value enters a message: its eight little-endian bytes.
pub open spec fn word_bytes(v: u64) -> Seq<u8> {
    le_bytes(v as nat, 8)
}

/// How a label enters a message: its UTF-8 bytes closed by `0xff`, a byte that
/// UTF-8 never uses, so that no label is a prefix of another's encoding.
pub open spec fn label_bytes(label: Seq<char>) -> Seq<u8> {
    encode_utf8(label).push(0xffu8)
}

/// How a sequence of values enters a message: each value's bytes, in order.
pub open spec fn words_bytes(values: Seq<u64>) -> Seq<u8>
    decreases values.len(),
{
    if values.len() == 0 {
        Seq::empty()
    } else {
        words_bytes(values.drop_last()) + word_bytes(values.last())
    }
}

/// The message hashed by the ordered combination of a label and values.
pub open spec fn seq_message(label: Seq<char>, values: Seq<u64>) -> Seq<u8> {
    label_bytes(label) + words_bytes(values)
}

/// The ordered combination of a label and values in position order.
pub open spec fn seq_fp(label: Seq<char>, values: Seq<u64>) -> u64 {
    siphash_of(seq_message(label, values))
}

/// Addition modulo 2^64.
pub open spec fn wrap_add(a: u64, b: u64) -> u64 {
    if a + b > u64::MAX {
        (a + b - 0x1_0000_0000_0000_0000) as u64
    } else {
        (a + b) as u64
    }
}

/// The fingerprint of one (label, value) pair of an unordered combination.
pub open spec fn entry_fp(label: Seq<char>, value: u64) -> u64 {
    seq_fp(label, seq![value])
}

/// The wrapping sum of `f` over the elements of `s`.
pub open spec fn sum_by<A>(s: Seq<A>, f: spec_fn(A) -> u64) -> u64
    decreases s.len(),
{
    if s.len() == 0 {
        0
    } else {
        wrap_add(sum_by(s.drop_last(), f), f(s.last()))
    }
}

/// How a union variant's discriminant enters a message: its four
/// little-endian bytes, in two's complement.
pub open spec fn tag_bytes(tag: i32) -> Seq<u8> {
    le_bytes(tag_word(tag), 4)
}

/// The 32-bit two's complement of a discriminant.
pub open spec fn tag_word(tag: i32) -> nat {
    if tag >= 0 {
        tag as nat
    } else {
        (tag + 0x1_0000_0000) as nat
    }
}

/// The message hashed by the ordered combination of a discriminant and values.
pub open spec fn tagged_message(tag: i32, values: Seq<u64>) -> Seq<u8> {
    tag_bytes(tag) + words_bytes(values)
}

/// The ordered combination of a discriminant and values, without a label.
pub open spec fn tagged_fp(tag: i32, values: Seq<u64>) -> u64 {
    siphash_of(tagged_message(tag, values))
}

/// The ordered combination of values alone, without a label.
pub open spec fn words_fp(values: Seq<u64>) -> u64 {
    siphash_of(words_bytes(values))
}

/// The unordered combination of (label, value) pairs.
pub open spec fn set_fp(entries: Seq<(String, u64)>) -> u64 {
    sum_by(entries, |e: (String, u64)| entry_fp(e.0@, e.1))
}

/// Removing one element takes its value out of the sum.
pub proof fn lemma_sum_by_remove<A>(s: Seq<A>, f: spec_fn(A) -> u64, j: int)
    requires
        0 <= j < s.len(),
    ensures
        sum_by(s, f) == wrap_add(sum_by(s.remove(j), f), f(s[j])),
    decreases s.len(),
{
    if j == s.len() - 1 {
        assert(s.remove(j) =~= s.drop_last());
    } else {
        lemma_sum_by_remove(s.drop_last(), f, j);
        assert(s.drop_last().remove(j) =~= s.remove(j).drop_last());
        assert(s.remove(j).last() == s.last());
    }
}

/// A wrapping sum does not depend on the order of its terms.
pub proof fn lemma_sum_by_permutation<A>(a: Seq<A>, b: Seq<A>, f: spec_fn(A) -> u64)
    requires
        a.to_multiset() == b.to_multiset(),
    ensures
        sum_by(a, f) == sum_by(b, f),
    decreases a.len(),
{
    broadcast use vstd::seq_lib::group_to_multiset_ensures;

    assert(a.to_multiset().len() == a.len());
    assert(b.to_multiset().len() == b.len());
    if a.len() == 0 {
    } else {
        let x = a.last();
        assert(a.contains(x)) by {
            assert(a[a.len() - 1] == x);
        }
        assert(a.to_multiset().count(x) > 0);
        assert(b.to_multiset().count(x) > 0);
        assert(b.contains(x));
        let j = choose|j: int| 0 <= j < b.len() && b[j] == x;
        assert(a.remove(a.len() - 1) =~= a.drop_last());
        lemma_sum_by_permutation(a.drop_last(), b.remove(j), f);
        lemma_sum_by_remove(b, f, j);
    }
}

/// 256 to the power `n`.
pub open spec fn byte_pow(n: nat) -> nat
    decreases n,
{
    if n == 0 {
        1
    } else {
        256 * byte_pow((n - 1) as nat)
    }
}

/// The ranges of four-byte and eight-byte words.
pub proof fn lemma_byte_pow_words()
    ensures
        byte_pow(4) == 0x1_0000_0000,
        byte_pow(8) == 0x1_0000_0000_0000_0000,
{
    reveal_with_fuel(byte_pow, 9);
}

/// `n` bytes are `n` bytes long.
pub proof fn lemma_le_bytes_len(v: nat, n: nat)
    ensures
        le_bytes(v, n).len() == n,
    decreases n,
{
    if n > 0 {
        lemma_le_bytes_len(v / 256, (n - 1) as nat);
    }
}

/// Values below 256^n have distinct `n`-byte encodings.
pub proof fn lemma_le_bytes_injective(v: nat, w: nat, n: nat)
    requires
        v < byte_pow(n),
        w < byte_pow(n),
        le_bytes(v, n) == le_bytes(w, n),
    ensures
        v == w,
    decreases n,
{
    if n > 0 {
        let p = byte_pow((n - 1) as nat);
        lemma_le_bytes_len(v / 256, (n - 1) as nat);
        lemma_le_bytes_len(w / 256, (n - 1) as nat);
        assert(le_bytes(v, n)[0] == (v % 256) as u8);
        assert(le_bytes(w, n)[0] == (w % 256) as u8);
        assert(le_bytes(v / 256, (n - 1) as nat) =~= le_bytes(v, n).drop_first());
        assert(le_bytes(w / 256, (n - 1) as nat) =~= le_bytes(w, n).drop_first());
        assert(v / 256 < p) by (nonlinear_arith)
            requires
                v < 256 * p,
        ;
        assert(w / 256 < p) by (nonlinear_arith)
            requires
                w < 256 * p,
        ;
        lemma_le_bytes_injective(v / 256, w / 256, (n - 1) as nat);
        assert(((v % 256) as u8) as nat == v % 256);
        assert(((w % 256) as u8) as nat == w % 256);
        assert(v == 256 * (v / 256) + v % 256);
        assert(w == 256 * (w / 256) + w % 256);
    }
}

/// A sequence of values takes eight bytes per value.
pub proof fn lemma_words_bytes_len(values: Seq<u64>)
    ensures
        words_bytes(values).len() == 8 * values.len(),
    decreases values.len(),
{
    if values.len() > 0 {
        lemma_words_bytes_len(values.drop_last());
        lemma_le_bytes_len(values.last() as nat, 8);
    }
}

/// Distinct sequences of values give distinct bytes.
pub proof fn lemma_words_bytes_injective(p: Seq<u64>, q: Seq<u64>)
    requires
        words_bytes(p) == words_bytes(q),
    ensures
        p == q,
    decreases p.len(),
{
    lemma_words_bytes_len(p);
    lemma_words_bytes_len(q);
    if p.len() > 0 {
        let n = words_bytes(p).len() as int;
        lemma_words_bytes_len(p.drop_last());
        lemma_words_bytes_len(q.drop_last());
        lemma_le_bytes_len(p.last() as nat, 8);
        lemma_le_bytes_len(q.last() as nat, 8);
        assert(words_bytes(p.drop_last()) =~= words_bytes(p).subrange(0, n - 8));
        assert(words_bytes(q.drop_last()) =~= words_bytes(q).subrange(0, n - 8));
        assert(word_bytes(p.last()) =~= words_bytes(p).subrange(n - 8, n));
        assert(word_bytes(q.last()) =~= words_bytes(q).subrange(n - 8, n));
        lemma_byte_pow_words();
        lemma_le_bytes_injective(p.last() as nat, q.last() as nat, 8);
        lemma_words_bytes_injective(p.drop_last(), q.drop_last());
        assert(p =~= p.drop_last().push(p.last()));
        assert(q =~= q.drop_last().push(q.last()));
    }
}

/// A label followed by bytes of a fixed length determines both.
pub proof fn lemma_label_bytes_injective(a: Seq<char>, x: Seq<u8>, b: Seq<char>, y: Seq<u8>)
    requires
        label_bytes(a) + x == label_bytes(b) + y,
        x.len() == y.len(),
    ensures
        a == b,
        x == y,
{
    let m = label_bytes(a) + x;
    let la = label_bytes(a).len() as int;
    assert(m.len() == la + x.len());
    assert((label_bytes(b) + y).len() == label_bytes(b).len() + y.len());
    assert(label_bytes(b).len() == la);
    assert(label_bytes(a) =~= m.subrange(0, la));
    assert(label_bytes(b) =~= m.subrange(0, la));
    assert(x =~= m.subrange(la, m.len() as int));
    assert(y =~= m.subrange(la, m.len() as int));
    assert(encode_utf8(a) =~= label_bytes(a).drop_last());
    assert(encode_utf8(b) =~= label_bytes(b).drop_last());
    encode_utf8_decode_utf8(a);
    encode_utf8_decode_utf8(b);
}

/// An ordered combination's message determines its label and, among value
/// sequences of one length, its values: distinct inputs hash distinct messages.
pub proof fn lemma_seq_message_injective(l1: Seq<char>, v1: Seq<u64>, l2: Seq<char>, v2: Seq<u64>)
    requires
        seq_message(l1, v1) == seq_message(l2, v2),
        v1.len() == v2.len(),
    ensures
        l1 == l2,
        v1 == v2,
{
    lemma_words_bytes_len(v1);
    lemma_words_bytes_len(v2);
    lemma_label_bytes_injective(l1, words_bytes(v1), l2, words_bytes(v2));
    lemma_words_bytes_injective(v1, v2);
}

/// Distinct discriminants, or distinct payloads, hash distinct messages.
pub proof fn lemma_tagged_message_injective(t1: i32, v1: Seq<u64>, t2: i32, v2: Seq<u64>)
    requires
        tagged_message(t1, v1) == tagged_message(t2, v2),
    ensures
        t1 == t2,
        v1 == v2,
{
    let m = tagged_message(t1, v1);
    lemma_le_bytes_len(tag_word(t1), 4);
    lemma_le_bytes_len(tag_word(t2), 4);
    assert(tag_bytes(t1) =~= m.subrange(0, 4));
    assert(tag_bytes(t2) =~= m.subrange(0, 4));
    assert(words_bytes(v1) =~= m.subrange(4, m.len() as int));
    assert(words_bytes(v2) =~= m.subrange(4, m.len() as int));
    lemma_byte_pow_words();
    lemma_le_bytes_injective(tag_word(t1), tag_word(t2), 4);
    lemma_words_bytes_injective(v1, v2);
}

/// Appends the `n` low bytes of `v`, least significant first.
fn push_le(out: &mut Vec<u8>, v: u64, n: usize)
    ensures
        final(out)@ == old(out)@ + le_bytes(v as nat, n as nat),
    decreases n,
{
    if n > 0 {
        out.push((v % 256) as u8);
        push_le(out, v / 256, n - 1);
        assert(final(out)@ =~= old(out)@ + le_bytes(v as nat, n as nat));
    } else {
        assert(final(out)@ =~= old(out)@ + le_bytes(v as nat, n as nat));
    }
}

/// Appends a label as it enters a message.
fn push_label(out: &mut Vec<u8>, label: &str)
    ensures
        final(out)@ == old(out)@ + label_bytes(label@),
{
    let mut bytes = label.as_bytes_vec();
    out.append(&mut bytes);
    out.push(0xffu8);
    assert(final(out)@ =~= old(out)@ + label_bytes(label@));
}

/// Appends values in order, each as it enters a message.
fn push_words(out: &mut Vec<u8>, values: &[u64])
    ensures
        final(out)@ == old(out)@ + words_bytes(values@),
{
    let ghost start = out@;
    let mut i: usize = 0;
    while i < values.len()
        invariant
            i <= values@.len(),
            out@ == start + words_bytes(values@.subrange(0, i as int)),
        decreases values@.len() - i,
    {
        push_le(out, values[i], 8);
        proof {
            let next = values@.subrange(0, i + 1);
            assert(next.drop_last() =~= values@.subrange(0, i as int));
        }
        i = i + 1;
    }
    assert(values@.subrange(0, i as int) =~= values@);
}

/// Ordered combination: hashes `label`, then each value in position order.
pub fn combine_seq(label: &str, values: &[u64]) -> (r: u64)
    ensures
        r == seq_fp(label@, values@),
{
    let mut msg: Vec<u8> = Vec::new();
    push_label(&mut msg, label);
    push_words(&mut msg, values);
    siphash(msg.as_slice())
}

/// Ordered combination of a discriminant and values, without a label.
pub fn combine_tagged(tag: i32, values: &[u64]) -> (r: u64)
    ensures
        r == tagged_fp(tag, values@),
{
    let mut msg: Vec<u8> = Vec::new();
    let word: u64 = if tag >= 0 {
        tag as u64
    } else {
        (tag as i64 + 0x1_0000_0000) as u64
    };
    push_le(&mut msg, word, 4);
    push_words(&mut msg, values);
    proof {
        assert(msg@ =~= tag_bytes(tag) + words_bytes(values@));
    }
    siphash(msg.as_slice())
}

/// Ordered combination of values alone, without a label.
pub fn combine_words(values: &[u64]) -> (r: u64)
    ensures
        r == words_fp(values@),
{
    let mut msg: Vec<u8> = Vec::new();
    push_words(&mut msg, values);
    proof {
        assert(msg@ =~= words_bytes(values@));
    }
    siphash(msg.as_slice())
}

/// The fingerprint of one (label, value) pair of an unordered combination.
pub fn entry_hash(label: &str, value: u64) -> (r: u64)
    ensures
        r == entry_fp(label@, value),
{
    let values = vec![value];
    proof {
        assert(values@ =~= seq![value]);
    }
    combine_seq(label, values.as_slice())
}

/// Unordered combination: the wrapping sum of the pairs' own fingerprints.
pub fn combine_set(entries: &[(String, u64)]) -> (r: u64)
    ensures
        r == set_fp(entries@),
{
    let mut acc: u64 = 0;
    let mut i: usize = 0;
    while i < entries.len()
        invariant
            i <= entries@.len(),
            acc == set_fp(entries@.subrange(0, i as int)),
        decreases entries@.len() - i,
    {
        let h = entry_hash(entries[i].0.as_str(), entries[i].1);
        acc = acc.wrapping_add(h);
        proof {
            assert(entries@.subrange(0, i + 1).drop_last() =~= entries@.subrange(0, i as int));
        }
        i = i + 1;
    }
    assert(entries@.subrange(0, i as int) =~= entries@);
    acc
}

/// Unordered combination does not depend on the order of the pairs.
pub proof fn lemma_set_fp_order(a: Seq<(String, u64)>, b: Seq<(String, u64)>)
    requires
        a.to_multiset() == b.to_multiset(),
    ensures
        set_fp(a) == set_fp(b),
{
    lemma_sum_by_permutation(a, b, |e: (String, u64)| entry_fp(e.0@, e.1));
}

} // verus!
