//! The total order of floating-point numbers, on their bit patterns.
//!
//! A double-precision number stands here as its bit pattern, an IEEE 754 binary64 taken as an
//! integer. The top bit is the sign, and the other bits grow with the magnitude, so the order of
//! all numbers, with the infinities, both zeros and the NaNs among them, is an order of integers:
//!
//! NaN with its sign set, negative infinity, negative numbers, -0, +0, positive numbers,
//! positive infinity, NaN with its sign clear.

use vstd::multiset::Multiset;
use vstd::prelude::*;
use vstd::seq_lib::group_to_multiset_ensures;
use vstd::seq_lib::lemma_multiset_commutative;

verus! {

/// The lowest bit pattern with its sign set: that of -0.
pub const SIGN: u64 = 0x8000_0000_0000_0000;

/// The place of a bit pattern in the order of floating-point numbers: 0 for +0, the magnitude for
/// what lies above it, -1 for -0, and further down by the magnitude for what lies below that.
pub open spec fn rank(bits: u64) -> int {
    if bits < SIGN {
        bits as int
    } else {
        SIGN - 1 - bits
    }
}

/// Whether the numbers are in ascending order.
pub open spec fn ascending(s: Seq<u64>) -> bool {
    forall|i: int, j: int| 0 <= i <= j < s.len() ==> rank(s[i]) <= rank(s[j])
}

/// Whether `s` holds the numbers of `of`, each as often, in ascending order.
pub open spec fn sorts(s: Seq<u64>, of: Seq<u64>) -> bool {
    &&& ascending(s)
    &&& s.to_multiset() == of.to_multiset()
}

/// How many numbers of `s` lie below `x`.
pub open spec fn count_below(s: Seq<u64>, x: u64) -> nat {
    s.to_multiset().filter(|y: u64| rank(y) < rank(x)).len()
}

/// How many numbers of `s` lie above `x`.
pub open spec fn count_above(s: Seq<u64>, x: u64) -> nat {
    s.to_multiset().filter(|y: u64| rank(y) > rank(x)).len()
}

/// An unsigned integer that orders as the floating-point number does.
fn order_key(bits: u64) -> (key: u64)
    ensures
        key == rank(bits) + SIGN,
{
    if bits < SIGN {
        bits + SIGN
    } else {
        u64::MAX - bits
    }
}

/// Merges two ascending runs into one.
fn merge(a: &Vec<u64>, b: &Vec<u64>) -> (out: Vec<u64>)
    requires
        ascending(a@),
        ascending(b@),
    ensures
        sorts(out@, a@ + b@),
{
    let mut out: Vec<u64> = Vec::new();
    let mut i: usize = 0;
    let mut j: usize = 0;
    proof {
        assert(a@.take(0) + b@.take(0) =~= out@);
    }
    while i < a.len() || j < b.len()
        invariant
            i <= a.len(),
            j <= b.len(),
            ascending(a@),
            ascending(b@),
            ascending(out@),
            forall|k: int, l: int|
                0 <= k < out.len() && i <= l < a.len() ==> rank(out@[k]) <= rank(a@[l]),
            forall|k: int, l: int|
                0 <= k < out.len() && j <= l < b.len() ==> rank(out@[k]) <= rank(b@[l]),
            out@.to_multiset() == (a@.take(i as int) + b@.take(j as int)).to_multiset(),
        decreases a.len() - i + b.len() - j,
    {
        broadcast use group_to_multiset_ensures;

        let from_a = j >= b.len() || (i < a.len() && order_key(a[i]) <= order_key(b[j]));
        proof {
            lemma_multiset_commutative(a@.take(i as int), b@.take(j as int));
            if from_a {
                assert(a@.take(i + 1) =~= a@.take(i as int).push(a@[i as int]));
                lemma_multiset_commutative(a@.take(i + 1), b@.take(j as int));
            } else {
                assert(b@.take(j + 1) =~= b@.take(j as int).push(b@[j as int]));
                lemma_multiset_commutative(a@.take(i as int), b@.take(j + 1));
            }
        }
        if from_a {
            out.push(a[i]);
            i += 1;
        } else {
            out.push(b[j]);
            j += 1;
        }
        assert(out@.to_multiset() =~= (a@.take(i as int) + b@.take(j as int)).to_multiset());
    }
    assert(a@.take(i as int) =~= a@ && b@.take(j as int) =~= b@);
    out
}

/// Sorts the numbers from place `from` up to, but without, place `to`.
fn sort_range(v: &Vec<u64>, from: usize, to: usize) -> (out: Vec<u64>)
    requires
        from <= to <= v.len(),
    ensures
        sorts(out@, v@.subrange(from as int, to as int)),
    decreases to - from,
{
    if to - from <= 1 {
        let mut out: Vec<u64> = Vec::new();
        if from < to {
            out.push(v[from]);
        }
        assert(out@ =~= v@.subrange(from as int, to as int));
        return out;
    }
    let middle: usize = from + (to - from) / 2;
    let low = sort_range(v, from, middle);
    let high = sort_range(v, middle, to);
    proof {
        let left = v@.subrange(from as int, middle as int);
        let right = v@.subrange(middle as int, to as int);
        assert(left + right =~= v@.subrange(from as int, to as int));
        lemma_multiset_commutative(left, right);
        lemma_multiset_commutative(low@, high@);
    }
    merge(&low, &high)
}

/// The same floating-point numbers in ascending order.
pub fn sorted(v: &Vec<u64>) -> (out: Vec<u64>)
    ensures
        sorts(out@, v@),
        out.len() == v.len(),
        out@.to_multiset() == v@.to_multiset(),
        forall|i: int, j: int|
            #![trigger out@[i], out@[j]]
            0 <= i <= j < out@.len() ==> {
                ||| out@[i] <= out@[j] < 0x8000_0000_0000_0000
                ||| out@[j] < 0x8000_0000_0000_0000 <= out@[i]
                ||| 0x8000_0000_0000_0000 <= out@[j] <= out@[i]
            },
{
    broadcast use group_to_multiset_ensures;

    assert(v@.subrange(0, v.len() as int) =~= v@);
    let out = sort_range(v, 0, v.len());
    assert(out@.to_multiset().len() == v@.to_multiset().len());
    out
}

/// No two bit patterns share a place in the order.
pub proof fn law_rank_injective(a: u64, b: u64)
    ensures
        rank(a) == rank(b) <==> a == b,
{
}

/// The place of a bit pattern is that of the number it stands for. Among patterns without the sign
/// the larger pattern is the larger number; among those with the sign it is the smaller one; and
/// every pattern with the sign lies below every pattern without it.
pub proof fn law_rank_orders_numbers(a: u64, b: u64)
    ensures
        a < b < 0x8000_0000_0000_0000 ==> rank(a) < rank(b),
        0x8000_0000_0000_0000 <= a < b ==> rank(a) > rank(b),
        b < 0x8000_0000_0000_0000 <= a ==> rank(a) < rank(b),
{
}

/// What it is to sort: the same numbers, each as often; and of two of them the earlier is not the
/// larger, so that those with the sign come first, with falling magnitude, and then those without
/// it, with rising magnitude.
pub proof fn law_sorted_meaning(s: Seq<u64>, of: Seq<u64>)
    ensures
        sorts(s, of) <==> {
            &&& s.to_multiset() == of.to_multiset()
            &&& forall|i: int, j: int|
                #![trigger s[i], s[j]]
                0 <= i <= j < s.len() ==> {
                    ||| s[i] <= s[j] < 0x8000_0000_0000_0000
                    ||| s[j] < 0x8000_0000_0000_0000 <= s[i]
                    ||| 0x8000_0000_0000_0000 <= s[j] <= s[i]
                }
        },
{
    if forall|i: int, j: int|
        #![trigger s[i], s[j]]
        0 <= i <= j < s.len() ==> {
            ||| s[i] <= s[j] < 0x8000_0000_0000_0000
            ||| s[j] < 0x8000_0000_0000_0000 <= s[i]
            ||| 0x8000_0000_0000_0000 <= s[j] <= s[i]
        } {
        assert forall|i: int, j: int| 0 <= i <= j < s.len() implies rank(s[i]) <= rank(s[j]) by {}
    }
}

/// The ascending order of numbers is one and no other: it depends on which numbers there are and
/// how often, not on the order in which they are given.
pub proof fn law_sorted_unique(s: Seq<u64>, t: Seq<u64>, of: Seq<u64>, shuffled: Seq<u64>)
    requires
        sorts(s, of),
        sorts(t, shuffled),
        of.to_multiset() == shuffled.to_multiset(),
    ensures
        s == t,
    decreases s.len(),
{
    broadcast use group_to_multiset_ensures;

    assert(s.to_multiset().len() == t.to_multiset().len());
    if s.len() > 0 {
        let n = s.len() - 1;
        assert(s.contains(s[n]) && t.contains(t[n]));
        assert(t.to_multiset().count(s[n]) > 0 && s.to_multiset().count(t[n]) > 0);
        assert(t.contains(s[n]) && s.contains(t[n]));
        assert(s[n] == t[n]);
        assert(s.remove(n) =~= s.drop_last() && t.remove(n) =~= t.drop_last());
        law_sorted_unique(s.drop_last(), t.drop_last(), s.drop_last(), t.drop_last());
        assert(s =~= s.drop_last().push(s[n]) && t =~= t.drop_last().push(t[n]));
    } else {
        assert(s =~= t);
    }
}

/// A part of a multiset that lies within another multiset is no larger than that.
proof fn lemma_filter_within(m: Multiset<u64>, f: spec_fn(u64) -> bool, outer: Multiset<u64>)
    requires
        forall|x: u64| f(x) ==> #[trigger] m.count(x) <= outer.count(x),
    ensures
        m.filter(f).len() <= outer.len(),
{
    broadcast use vstd::multiset::group_multiset_axioms;

    assert(m.filter(f).subset_of(outer));
    assert(outer.sub(m.filter(f)).len() == outer.len() - m.filter(f).len());
}

/// The number at place `k` of the ascending order is one of the given numbers. At most `k` of
/// these lie below it, and at most as many above it as there are places after `k`.
pub proof fn law_place_in_order(s: Seq<u64>, of: Seq<u64>, k: int)
    requires
        sorts(s, of),
        0 <= k < s.len(),
    ensures
        of.len() == s.len(),
        of.contains(s[k]),
        count_below(of, s[k]) <= k,
        count_above(of, s[k]) <= s.len() - 1 - k,
{
    broadcast use group_to_multiset_ensures;

    assert(s.to_multiset().len() == of.to_multiset().len());
    assert(s.contains(s[k]));
    assert(of.to_multiset().count(s[k]) > 0);
    let low = s.take(k);
    let rest = s.skip(k);
    assert(low + rest =~= s);
    lemma_multiset_commutative(low, rest);
    assert forall|x: u64| rank(x) < rank(s[k]) implies #[trigger] s.to_multiset().count(x)
        <= low.to_multiset().count(x) by {
        if rest.contains(x) {
            let i = choose|i: int| 0 <= i < rest.len() && rest[i] == x;
            assert(s[k + i] == x);
        }
        assert(rest.to_multiset().count(x) == 0);
    }
    lemma_filter_within(s.to_multiset(), |y: u64| rank(y) < rank(s[k]), low.to_multiset());
    let first = s.take(k + 1);
    let high = s.skip(k + 1);
    assert(first + high =~= s);
    lemma_multiset_commutative(first, high);
    assert forall|x: u64| rank(x) > rank(s[k]) implies #[trigger] s.to_multiset().count(x)
        <= high.to_multiset().count(x) by {
        if first.contains(x) {
            let i = choose|i: int| 0 <= i < first.len() && first[i] == x;
            assert(s[i] == x);
        }
        assert(first.to_multiset().count(x) == 0);
    }
    lemma_filter_within(s.to_multiset(), |y: u64| rank(y) > rank(s[k]), high.to_multiset());
}

/// No number lies below the first or above the last of the ascending order.
pub proof fn law_ends_of_order(s: Seq<u64>, of: Seq<u64>, x: u64)
    requires
        sorts(s, of),
        of.contains(x),
    ensures
        s.len() > 0,
        rank(s[0]) <= rank(x) <= rank(s[s.len() - 1]),
{
    broadcast use group_to_multiset_ensures;

    assert(of.to_multiset().count(x) > 0);
    assert(s.contains(x));
}

/// Numbers that are in ascending order already are left as they are.
pub proof fn law_sorted_idempotent(s: Seq<u64>, t: Seq<u64>)
    requires
        ascending(s),
        sorts(t, s),
    ensures
        t == s,
{
    law_sorted_unique(s, t, s, s);
}

} // verus!
