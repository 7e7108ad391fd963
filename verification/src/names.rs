//! The order of names: as strings compare, byte by byte in their UTF-8
//! encoding.

use vstd::prelude::*;
use vstd::utf8::{encode_utf8, encode_utf8_decode_utf8};

verus! {

/// How one name stands to another.
#[derive(Clone, Copy, Debug, PartialEq, Eq, Structural)]
pub enum NameOrder {
    Less,
    Equal,
    Greater,
}

/// The lexicographic order of two byte strings.
pub open spec fn bytes_order(a: Seq<u8>, b: Seq<u8>) -> NameOrder
    decreases a.len(),
{
    if a.len() == 0 {
        if b.len() == 0 {
            NameOrder::Equal
        } else {
            NameOrder::Less
        }
    } else if b.len() == 0 {
        NameOrder::Greater
    } else if a[0] < b[0] {
        NameOrder::Less
    } else if a[0] > b[0] {
        NameOrder::Greater
    } else {
        bytes_order(a.drop_first(), b.drop_first())
    }
}

/// The order of two names.
pub open spec fn name_order(a: Seq<char>, b: Seq<char>) -> NameOrder {
    bytes_order(encode_utf8(a), encode_utf8(b))
}

/// Whether `a` comes before `b`.
pub open spec fn name_lt(a: Seq<char>, b: Seq<char>) -> bool {
    name_order(a, b) == NameOrder::Less
}

pub proof fn lemma_bytes_equal(a: Seq<u8>, b: Seq<u8>)
    ensures
        bytes_order(a, b) == NameOrder::Equal <==> a == b,
    decreases a.len(),
{
    if a.len() == 0 || b.len() == 0 {
        if a.len() == 0 && b.len() == 0 {
            assert(a =~= b);
        }
    } else if a[0] == b[0] {
        lemma_bytes_equal(a.drop_first(), b.drop_first());
        if a.drop_first() == b.drop_first() {
            assert(a =~= seq![a[0]] + a.drop_first());
            assert(b =~= seq![b[0]] + b.drop_first());
        }
    }
}

pub proof fn lemma_bytes_flip(a: Seq<u8>, b: Seq<u8>)
    ensures
        bytes_order(a, b) == NameOrder::Less <==> bytes_order(b, a) == NameOrder::Greater,
    decreases a.len(),
{
    if a.len() > 0 && b.len() > 0 && a[0] == b[0] {
        lemma_bytes_flip(a.drop_first(), b.drop_first());
    }
}

pub proof fn lemma_bytes_trans(a: Seq<u8>, b: Seq<u8>, c: Seq<u8>)
    requires
        bytes_order(a, b) == NameOrder::Less,
        bytes_order(b, c) == NameOrder::Less,
    ensures
        bytes_order(a, c) == NameOrder::Less,
    decreases a.len(),
{
    if a.len() > 0 && b.len() > 0 && c.len() > 0 && a[0] == b[0] && b[0] == c[0] {
        lemma_bytes_trans(a.drop_first(), b.drop_first(), c.drop_first());
    }
}

/// Two names stand equal exactly if they are the same name.
pub proof fn lemma_name_equal(a: Seq<char>, b: Seq<char>)
    ensures
        name_order(a, b) == NameOrder::Equal <==> a == b,
{
    lemma_bytes_equal(encode_utf8(a), encode_utf8(b));
    encode_utf8_decode_utf8(a);
    encode_utf8_decode_utf8(b);
}

/// If `a` comes before `b`, then `b` comes after `a`, and the other way
/// round.
pub proof fn lemma_name_flip(a: Seq<char>, b: Seq<char>)
    ensures
        name_order(a, b) == NameOrder::Less <==> name_order(b, a) == NameOrder::Greater,
{
    lemma_bytes_flip(encode_utf8(a), encode_utf8(b));
}

/// If `a` comes before `b` and `b` before `c`, then `a` comes before `c`.
pub proof fn lemma_name_trans(a: Seq<char>, b: Seq<char>, c: Seq<char>)
    requires
        name_lt(a, b),
        name_lt(b, c),
    ensures
        name_lt(a, c),
{
    lemma_bytes_trans(encode_utf8(a), encode_utf8(b), encode_utf8(c));
}

proof fn lemma_bytes_skip(a: Seq<u8>, b: Seq<u8>, i: int)
    requires
        0 <= i <= a.len(),
        i <= b.len(),
        forall|j: int| 0 <= j < i ==> a[j] == b[j],
    ensures
        bytes_order(a, b) == bytes_order(a.skip(i), b.skip(i)),
    decreases i,
{
    if i > 0 {
        assert(a.drop_first().skip(i - 1) =~= a.skip(i));
        assert(b.drop_first().skip(i - 1) =~= b.skip(i));
        lemma_bytes_skip(a.drop_first(), b.drop_first(), i - 1);
    } else {
        assert(a.skip(0) =~= a);
        assert(b.skip(0) =~= b);
    }
}

/// Compares two names as strings compare.
pub fn compare_names(a: &str, b: &str) -> (o: NameOrder)
    ensures
        o == name_order(a@, b@),
{
    let x = a.as_bytes();
    let y = b.as_bytes();
    let mut i: usize = 0;
    while i < x.len() && i < y.len()
        invariant
            i <= x@.len(),
            i <= y@.len(),
            x@ == encode_utf8(a@),
            y@ == encode_utf8(b@),
            forall|j: int| 0 <= j < i ==> x@[j] == y@[j],
        decreases x@.len() - i,
    {
        proof {
            lemma_bytes_skip(x@, y@, i as int);
        }
        if x[i] < y[i] {
            return NameOrder::Less;
        }
        if x[i] > y[i] {
            return NameOrder::Greater;
        }
        i += 1;
    }
    proof {
        lemma_bytes_skip(x@, y@, i as int);
    }
    if i < y.len() {
        NameOrder::Less
    } else if i < x.len() {
        NameOrder::Greater
    } else {
        NameOrder::Equal
    }
}

} // verus!
