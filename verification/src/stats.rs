//! Order statistics over whole numbers.

use vstd::prelude::*;
use vstd::relations::{sorted_by, total_ordering};

verus! {

/// Whether numbers stand in ascending order.
pub open spec fn ascending(s: Seq<u64>) -> bool {
    forall|i: int, j: int| 0 <= i <= j < s.len() ==> (#[trigger] s[i]) <= (#[trigger] s[j])
}

/// The numbers in ascending order.
pub open spec fn sorted(s: Seq<u64>) -> Seq<u64> {
    s.sort_by(|a: u64, b: u64| a <= b)
}

/// The only ascending list with the same numbers is the sorted one.
proof fn ascending_is_sorted(s: Seq<u64>, t: Seq<u64>)
    requires
        ascending(t),
        t.to_multiset() == s.to_multiset(),
    ensures
        t == sorted(s),
{
    let leq = |a: u64, b: u64| a <= b;
    assert(total_ordering(leq));
    s.lemma_sort_by_ensures(leq);
    assert(sorted_by(t, leq));
    vstd::seq_lib::lemma_sorted_unique(t, s.sort_by(leq), leq);
}

/// Sorting keeps the numbers and puts them in order.
pub proof fn sorted_is_ascending(s: Seq<u64>)
    ensures
        ascending(sorted(s)),
        sorted(s).to_multiset() == s.to_multiset(),
        sorted(s).len() == s.len(),
{
    let leq = |a: u64, b: u64| a <= b;
    assert(total_ordering(leq));
    s.lemma_sort_by_ensures(leq);
    let t = sorted(s);
    assert forall|i: int, j: int| 0 <= i <= j < t.len() implies (#[trigger] t[i]) <= (
    #[trigger] t[j]) by {
        if i < j {
            assert(leq(t[i], t[j]));
        }
    }
    s.to_multiset_ensures();
    t.to_multiset_ensures();
}

/// Sorts numbers.
pub fn sort(values: &Vec<u64>) -> (r: Vec<u64>)
    ensures
        r@ == sorted(values@),
        r@.len() == values@.len(),
{
    let mut r: Vec<u64> = Vec::new();
    let mut i: usize = 0;
    assert(values@.take(0) =~= r@);
    while i < values.len()
        invariant
            i <= values@.len(),
            r@.len() == i,
            ascending(r@),
            r@.to_multiset() == values@.take(i as int).to_multiset(),
        decreases values@.len() - i,
    {
        let x: u64 = values[i];
        let mut p: usize = r.len();
        while p > 0 && r[p - 1] > x
            invariant
                p <= r@.len(),
                forall|k: int| p <= k < r@.len() ==> (#[trigger] r@[k]) > x,
            decreases p,
        {
            p -= 1;
        }
        proof {
            vstd::seq_lib::to_multiset_insert(r@, p as int, x);
            vstd::seq_lib::to_multiset_build(values@.take(i as int), x);
            assert(values@.take(i + 1) =~= values@.take(i as int).push(x));
            let t = r@.insert(p as int, x);
            assert forall|a: int, b: int| 0 <= a <= b < t.len() implies (#[trigger] t[a]) <= (
            #[trigger] t[b]) by {
                if p > 0 {
                    assert(r@[p - 1] <= x);
                }
            }
        }
        r.insert(p, x);
        i += 1;
    }
    assert(values@.take(i as int) =~= values@);
    proof {
        ascending_is_sorted(values@, r@);
    }
    r
}

/// The rank, from one, of the value below which `percent` of `count` values lie, rounded up.
pub open spec fn nearest_rank(count: int, percent: int) -> int {
    let rank = (percent * count + 99) / 100;
    if rank < 1 {
        1
    } else {
        rank
    }
}

/// The percentile of ascending numbers by the nearest rank; zero where there are none.
pub open spec fn percentile(s: Seq<u64>, percent: int) -> u64 {
    if s.len() == 0 {
        0
    } else {
        s[nearest_rank(s.len() as int, percent) - 1]
    }
}

proof fn rank_in_range(count: int, percent: int)
    requires
        count > 0,
        0 <= percent <= 100,
    ensures
        1 <= nearest_rank(count, percent) <= count,
{
    assert(percent * count <= 100 * count) by (nonlinear_arith)
        requires
            count > 0,
            0 <= percent <= 100,
    ;
    assert(0 <= percent * count) by (nonlinear_arith)
        requires
            count > 0,
            0 <= percent,
    ;
}

/// Finds the percentile of ascending numbers; more than a hundred percent is a hundred.
pub fn percentile_nearest_rank(values: &Vec<u64>, percent: u8) -> (r: u64)
    ensures
        r == percentile(
            values@,
            if percent > 100 {
                100
            } else {
                percent as int
            },
        ),
{
    let percent: u8 = if percent > 100 {
        100
    } else {
        percent
    };
    let count: usize = values.len();
    if count == 0 {
        return 0;
    }
    proof {
        rank_in_range(count as int, percent as int);
        assert(0 <= percent * count <= 100 * count) by (nonlinear_arith)
            requires
                count > 0,
                0 <= percent <= 100,
        ;
    }
    let product: u128 = percent as u128 * count as u128;
    let rank: u128 = (product + 99) / 100;
    if rank < 1 {
        values[0]
    } else {
        values[(rank - 1) as usize]
    }
}

/// How many of the numbers are at most `v`.
pub open spec fn count_at_most(s: Seq<u64>, v: u64) -> nat {
    s.filter(|x: u64| x <= v).len()
}

proof fn count_push(s: Seq<u64>, v: u64)
    requires
        s.len() > 0,
    ensures
        count_at_most(s, v) == count_at_most(s.drop_last(), v) + if s.last() <= v {
            1nat
        } else {
            0
        },
{
    reveal(Seq::filter);
}

proof fn count_at_least(s: Seq<u64>, v: u64, k: int)
    requires
        0 <= k <= s.len(),
        forall|i: int| 0 <= i < k ==> (#[trigger] s[i]) <= v,
    ensures
        count_at_most(s, v) >= k,
    decreases s.len(),
{
    if s.len() > 0 {
        let head = s.drop_last();
        let j = if k < s.len() {
            k
        } else {
            k - 1
        };
        assert forall|i: int| 0 <= i < j implies (#[trigger] head[i]) <= v by {
            assert(head[i] == s[i]);
        }
        count_at_least(head, v, j);
        count_push(s, v);
    }
}

proof fn count_no_more(s: Seq<u64>, v: u64, k: int)
    requires
        0 <= k <= s.len(),
        forall|i: int| k <= i < s.len() ==> (#[trigger] s[i]) > v,
    ensures
        count_at_most(s, v) <= k,
    decreases s.len(),
{
    if s.len() > 0 {
        let head = s.drop_last();
        let j = if k < s.len() {
            k
        } else {
            k - 1
        };
        assert forall|i: int| j <= i < head.len() implies (#[trigger] head[i]) > v by {
            assert(head[i] == s[i]);
        }
        count_no_more(head, v, j);
        count_push(s, v);
    } else {
        reveal(Seq::filter);
    }
}

/// What the percentile is: the least of the numbers such that at least so many percent of them are
/// no greater.
pub proof fn percentile_is_least(s: Seq<u64>, percent: int)
    requires
        ascending(s),
        s.len() > 0,
        0 < percent <= 100,
    ensures
        s.contains(percentile(s, percent)),
        count_at_most(s, percentile(s, percent)) * 100 >= percent * s.len(),
        forall|w: u64|
            w < percentile(s, percent) ==> #[trigger] count_at_most(s, w) * 100 < percent * s.len(),
{
    let n = s.len() as int;
    rank_in_range(n, percent);
    let product = percent * n;
    assert(product > 0) by (nonlinear_arith)
        requires
            product == percent * n,
            percent > 0,
            n > 0,
    ;
    let rank = nearest_rank(n, percent);
    assert(rank == (product + 99) / 100);
    let v = s[rank - 1];
    assert forall|i: int| 0 <= i < rank implies (#[trigger] s[i]) <= v by {}
    count_at_least(s, v, rank);
    assert forall|w: u64| w < v implies #[trigger] count_at_most(s, w) * 100 < product by {
        assert forall|i: int| rank - 1 <= i < s.len() implies (#[trigger] s[i]) > w by {}
        count_no_more(s, w, rank - 1);
    }
}

/// A percentile of some numbers is one of them, and a higher percent gives no smaller one: from the
/// least number at nothing to the greatest at a hundred percent. Of no numbers, every percentile is
/// zero.
pub proof fn percentiles_rise(s: Seq<u64>, low: int, high: int)
    requires
        ascending(s),
        0 <= low <= high <= 100,
    ensures
        percentile(s, low) <= percentile(s, high),
        s.len() == 0 ==> percentile(s, low) == 0,
        s.len() > 0 ==> {
            &&& s.contains(percentile(s, low))
            &&& percentile(s, 0) == s.first()
            &&& percentile(s, 100) == s.last()
        },
{
    if s.len() > 0 {
        let n = s.len() as int;
        rank_in_range(n, low);
        rank_in_range(n, high);
        assert(low * n <= high * n) by (nonlinear_arith)
            requires
                low <= high,
                n > 0,
        ;
        assert(nearest_rank(n, low) <= nearest_rank(n, high));
        assert(nearest_rank(n, 0) == 1 && nearest_rank(n, 100) == n);
        assert(s[nearest_rank(n, low) - 1] == percentile(s, low));
    }
}

/// The sum of numbers.
pub open spec fn total(s: Seq<u64>) -> nat
    decreases s.len(),
{
    if s.len() == 0 {
        0
    } else {
        total(s.drop_last()) + s.last() as nat
    }
}

/// Adds numbers up.
pub fn sum(values: &Vec<u64>) -> (r: u128)
    ensures
        r == total(values@),
{
    let mut r: u128 = 0;
    let mut i: usize = 0;
    assert(values@.take(0) =~= Seq::<u64>::empty());
    while i < values.len()
        invariant
            i <= values@.len(),
            r == total(values@.take(i as int)),
            r <= i * 0xffff_ffff_ffff_ffff,
        decreases values@.len() - i,
    {
        assert(values@.take(i + 1).drop_last() =~= values@.take(i as int));
        r = r + values[i] as u128;
        i += 1;
    }
    assert(values@.take(i as int) =~= values@);
    r
}

} // verus!
