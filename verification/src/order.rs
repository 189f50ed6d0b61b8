//! Lexicographic ordering of strings, as `str::cmp` orders them.

use std::cmp::Ordering;
use vstd::prelude::*;

use crate::text::{code, code_of, ix, lemma_code_injective};

verus! {

/// Lexicographic order of character sequences, comparing code points, as `str::cmp` orders
/// string slices.
pub open spec fn seq_order(a: Seq<char>, b: Seq<char>) -> Ordering
    decreases a.len(),
{
    if a.len() == 0 {
        if b.len() == 0 { Ordering::Equal } else { Ordering::Less }
    } else if b.len() == 0 {
        Ordering::Greater
    } else if code(a[0]) < code(b[0]) {
        Ordering::Less
    } else if code(a[0]) > code(b[0]) {
        Ordering::Greater
    } else {
        seq_order(a.drop_first(), b.drop_first())
    }
}

/// The opposite of an ordering.
pub open spec fn flip(o: Ordering) -> Ordering {
    match o {
        Ordering::Less => Ordering::Greater,
        Ordering::Equal => Ordering::Equal,
        Ordering::Greater => Ordering::Less,
    }
}

/// Comparing in the other direction gives the opposite ordering.
pub proof fn lemma_seq_order_flip(a: Seq<char>, b: Seq<char>)
    ensures
        seq_order(b, a) == flip(seq_order(a, b)),
    decreases a.len(),
{
    if a.len() > 0 && b.len() > 0 {
        lemma_code_injective(a[0], b[0]);
        if a[0] == b[0] {
            lemma_seq_order_flip(a.drop_first(), b.drop_first());
        }
    }
}

/// A sequence is equal to itself, and only to itself.
pub proof fn lemma_seq_order_equal(a: Seq<char>, b: Seq<char>)
    ensures
        (seq_order(a, b) == Ordering::Equal) == (a == b),
    decreases a.len(),
{
    if a.len() > 0 && b.len() > 0 {
        lemma_code_injective(a[0], b[0]);
        lemma_seq_order_equal(a.drop_first(), b.drop_first());
        if a[0] == b[0] && a.drop_first() == b.drop_first() {
            assert(a =~= seq![a[0]] + a.drop_first());
            assert(b =~= seq![b[0]] + b.drop_first());
        }
        if a == b {
            assert(a.drop_first() =~= b.drop_first());
        }
    } else if a.len() == 0 && b.len() == 0 {
        assert(a =~= b);
    }
}

/// The order is transitive.
pub proof fn lemma_seq_order_transitive(a: Seq<char>, b: Seq<char>, c: Seq<char>, o: Ordering)
    requires
        o != Ordering::Equal,
        seq_order(a, b) == o || seq_order(a, b) == Ordering::Equal,
        seq_order(b, c) == o || seq_order(b, c) == Ordering::Equal,
        seq_order(a, b) == o || seq_order(b, c) == o,
    ensures
        seq_order(a, c) == o,
    decreases a.len(),
{
    lemma_seq_order_equal(a, b);
    lemma_seq_order_equal(b, c);
    if a.len() > 0 && b.len() > 0 && c.len() > 0 {
        lemma_code_injective(a[0], b[0]);
        lemma_code_injective(b[0], c[0]);
        lemma_code_injective(a[0], c[0]);
    }
    if a.len() > 0 && b.len() > 0 && c.len() > 0 && a[0] == b[0] && b[0] == c[0] {
        lemma_seq_order_transitive(a.drop_first(), b.drop_first(), c.drop_first(), o);
    }
}

/// Compares two string slices lexicographically by code point.
pub fn str_order(a: &str, b: &str) -> (r: Ordering)
    ensures
        r == seq_order(a@, b@),
{
    let n = a.unicode_len();
    let m = b.unicode_len();
    let mut i: usize = 0;
    assert(a@.skip(0) =~= a@);
    assert(b@.skip(0) =~= b@);
    while i < n && i < m
        invariant
            n == a@.len(),
            m == b@.len(),
            i <= n,
            i <= m,
            seq_order(a@, b@) == seq_order(a@.skip(ix(i)), b@.skip(ix(i))),
        decreases n - i,
    {
        let x = a.get_char(i);
        let y = b.get_char(i);
        let xi = code_of(x);
        let yi = code_of(y);
        if xi < yi {
            return Ordering::Less;
        }
        if xi > yi {
            return Ordering::Greater;
        }
        assert(a@.skip(ix(i)).drop_first() =~= a@.skip(i + 1));
        assert(b@.skip(ix(i)).drop_first() =~= b@.skip(i + 1));
        i = i + 1;
    }
    if i < n {
        Ordering::Greater
    } else if i < m {
        Ordering::Less
    } else {
        Ordering::Equal
    }
}

} // verus!
