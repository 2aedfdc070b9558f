//! Order-independent equality of fund lists.
//!
//! Funds are multisets of (denomination, amount) pairs: two lists are equal
//! exactly when every pair occurs the same number of times in both, whatever
//! the order. The executable check compares occurrence counts both ways.

use vstd::prelude::*;

use crate::state::{funds_of, Coin, CoinV};

verus! {

/// Two fund lists carry the same funds: equal as multisets of pairs.
pub open spec fn funds_eq(a: Seq<CoinV>, b: Seq<CoinV>) -> bool {
    a.to_multiset() == b.to_multiset()
}

/// Same denomination and same amount.
pub fn coin_eq(a: &Coin, b: &Coin) -> (r: bool)
    ensures
        r == (a@ == b@),
{
    let r = a.denom == b.denom && a.amount == b.amount;
    proof {
        if a.denom@ == b.denom@ && a.amount == b.amount {
            assert(a@ =~= b@);
        }
    }
    r
}

/// How many entries of `v` equal `c`.
fn count_coin(v: &Vec<Coin>, c: &Coin) -> (n: usize)
    ensures
        n == funds_of(v@).to_multiset().count(c@),
{
    broadcast use vstd::seq_lib::group_to_multiset_ensures;
    broadcast use vstd::multiset::group_multiset_axioms;

    let mut n: usize = 0;
    let mut i: usize = 0;
    while i < v.len()
        invariant
            i <= v.len(),
            n <= i,
            n == funds_of(v@.take(i as int)).to_multiset().count(c@),
        decreases v.len() - i,
    {
        proof {
            let pre = funds_of(v@.take(i as int));
            let e = v@[i as int]@;
            assert(funds_of(v@.take(i + 1)) =~= pre.push(e));
            vstd::seq_lib::to_multiset_build::<CoinV>(pre, e);
            assert(pre.push(e).to_multiset() =~= pre.to_multiset().insert(e));
            assert(pre.to_multiset().insert(e).count(c@) == if e == c@ {
                pre.to_multiset().count(c@) + 1
            } else {
                pre.to_multiset().count(c@)
            });
        }
        if coin_eq(&v[i], c) {
            n = n + 1;
        }
        i = i + 1;
    }
    proof {
        assert(v@.take(v@.len() as int) =~= v@);
    }
    n
}

/// Decides multiset equality of two fund lists.
pub fn funds_match(a: &Vec<Coin>, b: &Vec<Coin>) -> (r: bool)
    ensures
        r == funds_eq(funds_of(a@), funds_of(b@)),
{
    broadcast use vstd::seq_lib::group_to_multiset_ensures;

    let ghost fa = funds_of(a@);
    let ghost fb = funds_of(b@);
    if a.len() != b.len() {
        proof {
            assert(fa.to_multiset().len() == fa.len());
            assert(fb.to_multiset().len() == fb.len());
        }
        return false;
    }
    let mut i: usize = 0;
    while i < a.len()
        invariant
            i <= a.len(),
            fa == funds_of(a@),
            fb == funds_of(b@),
            forall|k: int|
                0 <= k < i ==> fa.to_multiset().count(#[trigger] fa[k]) == fb.to_multiset().count(
                    fa[k],
                ),
        decreases a.len() - i,
    {
        let ca = count_coin(a, &a[i]);
        let cb = count_coin(b, &a[i]);
        if ca != cb {
            return false;
        }
        i = i + 1;
    }
    let mut j: usize = 0;
    while j < b.len()
        invariant
            j <= b.len(),
            fa == funds_of(a@),
            fb == funds_of(b@),
            forall|k: int|
                0 <= k < fa.len() ==> fa.to_multiset().count(#[trigger] fa[k])
                    == fb.to_multiset().count(fa[k]),
            forall|k: int|
                0 <= k < j ==> fa.to_multiset().count(#[trigger] fb[k]) == fb.to_multiset().count(
                    fb[k],
                ),
        decreases b.len() - j,
    {
        let ca = count_coin(a, &b[j]);
        let cb = count_coin(b, &b[j]);
        if ca != cb {
            return false;
        }
        j = j + 1;
    }
    proof {
        assert forall|x: CoinV| fa.to_multiset().count(x) == fb.to_multiset().count(x) by {
            if fa.to_multiset().count(x) > 0 {
                assert(fa.contains(x));
                let k = choose|k: int| 0 <= k < fa.len() && fa[k] == x;
                assert(fa.to_multiset().count(fa[k]) == fb.to_multiset().count(fa[k]));
            } else if fb.to_multiset().count(x) > 0 {
                assert(fb.contains(x));
                let k = choose|k: int| 0 <= k < fb.len() && fb[k] == x;
                assert(fa.to_multiset().count(fb[k]) == fb.to_multiset().count(fb[k]));
            }
        }
        assert(fa.to_multiset() =~= fb.to_multiset());
    }
    true
}

} // verus!
