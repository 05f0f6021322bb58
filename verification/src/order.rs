//! The orders in which things are shown: a list by one flag, a table by name.
//!
//! An order of display is a sequence of positions of the underlying list. This
//! module says what it means for such a sequence to be a stable sort of the
//! list by its flags, gives the sequence in closed form, and proves that the
//! two agree: the closed form is a stable sort, and it is the only one. It
//! also says what it means for a sequence to be sorted by name, and proves
//! that names of which none comes twice have one such order only.

use vstd::prelude::*;

use crate::text::text_le;

verus! {

/// Tells of a position of `flags` whether it holds `wanted`.
pub open spec fn holds(flags: Seq<bool>, wanted: bool) -> spec_fn(int) -> bool {
    |i: int| flags[i] == wanted
}

/// The positions `0, 1, ..` below `n`.
pub open spec fn positions(n: nat) -> Seq<int> {
    Seq::new(n, |i: int| i)
}

/// The positions of `flags` that hold `wanted`, ascending.
pub open spec fn positions_holding(flags: Seq<bool>, wanted: bool) -> Seq<int> {
    positions(flags.len()).filter(holds(flags, wanted))
}

/// The order of display: the positions whose flag is clear, ascending, and
/// after them the positions whose flag is set, ascending.
pub open spec fn clear_then_set(flags: Seq<bool>) -> Seq<int> {
    positions_holding(flags, false) + positions_holding(flags, true)
}

/// The positions that `order` names.
pub open spec fn as_positions(order: Seq<usize>) -> Seq<int> {
    Seq::new(order.len(), |k: int| order[k] as int)
}

/// `order` holds each position below `n` exactly once: it is as long as `n`
/// says, each of its entries is a position below `n`, no entry comes twice,
/// and no position is left out.
pub open spec fn is_rearrangement(n: nat, order: Seq<int>) -> bool {
    &&& order.len() == n
    &&& forall|k: int| 0 <= k < order.len() ==> 0 <= #[trigger] order[k] < n
    &&& forall|j: int, k: int| 0 <= j < k < order.len() ==> order[j] != order[k]
    &&& forall|i: int| 0 <= i < n ==> #[trigger] order.contains(i)
}

/// No position whose flag is set comes before one whose flag is clear.
pub open spec fn is_ascending(flags: Seq<bool>, order: Seq<int>) -> bool {
    forall|j: int, k: int|
        0 <= j < k < order.len() && flags[#[trigger] order[j]] ==> flags[#[trigger] order[k]]
}

/// Positions with equal flags come in the order of the underlying list.
pub open spec fn keeps_list_order(flags: Seq<bool>, order: Seq<int>) -> bool {
    forall|j: int, k: int|
        0 <= j < k < order.len() && flags[#[trigger] order[j]] == flags[#[trigger] order[k]]
            ==> order[j] < order[k]
}

/// `order` is what a stable sort of the positions of `flags` by their flag,
/// clear before set, gives.
pub open spec fn is_stable_order(flags: Seq<bool>, order: Seq<int>) -> bool {
    &&& is_rearrangement(flags.len(), order)
    &&& is_ascending(flags, order)
    &&& keeps_list_order(flags, order)
}

/// `order` names every position of `names` once, and the names it runs
/// through never descend. Where a name occurs twice, either occurrence may
/// come first.
pub open spec fn is_sorted_by_name(names: Seq<Seq<char>>, order: Seq<int>) -> bool {
    &&& is_rearrangement(names.len(), order)
    &&& forall|j: int, k: int|
        0 <= j < k < order.len() ==> text_le(names[#[trigger] order[j]], names[#[trigger] order[k]])
}

/// The positions below `n` that hold `wanted`.
spec fn prefix_holding(flags: Seq<bool>, wanted: bool, n: nat) -> Seq<int> {
    positions(n).filter(holds(flags, wanted))
}

/// A number that orders positions as the stable sort does.
spec fn rank(flags: Seq<bool>, i: int) -> int {
    if flags[i] {
        flags.len() + i
    } else {
        i
    }
}

spec fn ranks(flags: Seq<bool>, order: Seq<int>) -> Seq<int> {
    Seq::new(order.len(), |k: int| rank(flags, order[k]))
}

spec fn is_increasing(a: Seq<int>) -> bool {
    forall|j: int, k: int| 0 <= j < k < a.len() ==> a[j] < a[k]
}

spec fn is_within(a: Seq<int>, b: Seq<int>) -> bool {
    forall|j: int| 0 <= j < a.len() ==> b.contains(#[trigger] a[j])
}

proof fn lemma_prefix_step(flags: Seq<bool>, wanted: bool, n: nat)
    requires
        0 < n,
    ensures
        prefix_holding(flags, wanted, n) == if flags[n - 1] == wanted {
            prefix_holding(flags, wanted, (n - 1) as nat).push(n - 1)
        } else {
            prefix_holding(flags, wanted, (n - 1) as nat)
        },
{
    reveal(Seq::<_>::filter);
    assert(positions(n).drop_last() =~= positions((n - 1) as nat));
}

proof fn lemma_prefix_holding(flags: Seq<bool>, wanted: bool, n: nat)
    requires
        n <= flags.len(),
    ensures
        forall|k: int|
            0 <= k < prefix_holding(flags, wanted, n).len() ==> {
                &&& 0 <= #[trigger] prefix_holding(flags, wanted, n)[k] < n
                &&& flags[prefix_holding(flags, wanted, n)[k]] == wanted
            },
        forall|i: int|
            0 <= i < n && flags[i] == wanted ==> #[trigger] prefix_holding(
                flags,
                wanted,
                n,
            ).contains(i),
        is_increasing(prefix_holding(flags, wanted, n)),
        prefix_holding(flags, wanted, n).len() + prefix_holding(flags, !wanted, n).len() == n,
    decreases n,
{
    let here = prefix_holding(flags, wanted, n);
    if n == 0 {
        reveal(Seq::<_>::filter);
        assert(here.len() == 0);
        assert(prefix_holding(flags, !wanted, n).len() == 0);
    } else {
        let m = (n - 1) as nat;
        let before = prefix_holding(flags, wanted, m);
        lemma_prefix_holding(flags, wanted, m);
        lemma_prefix_step(flags, wanted, n);
        lemma_prefix_step(flags, !wanted, n);
        assert forall|i: int| 0 <= i < n && flags[i] == wanted implies here.contains(i) by {
            if i < m {
                assert(before.contains(i));
                let k = choose|k: int| 0 <= k < before.len() && before[k] == i;
                assert(here[k] == i);
            } else {
                assert(here[here.len() - 1] == i);
            }
        }
    }
}

/// Two ascending sequences of one length that hold the same values are equal.
proof fn lemma_increasing_equal(a: Seq<int>, b: Seq<int>)
    requires
        a.len() == b.len(),
        is_increasing(a),
        is_increasing(b),
        is_within(a, b),
        is_within(b, a),
    ensures
        a == b,
    decreases a.len(),
{
    if a.len() == 0 {
        assert(a =~= b);
    } else {
        let n = a.len() - 1;
        assert(b.contains(a[n]));
        assert(a.contains(b[n]));
        assert(a[n] == b[n]);
        let a0 = a.drop_last();
        let b0 = b.drop_last();
        assert forall|j: int| 0 <= j < a0.len() implies b0.contains(#[trigger] a0[j]) by {
            assert(b.contains(a[j]));
            let k = choose|k: int| 0 <= k < b.len() && b[k] == a[j];
            assert(b0[k] == a0[j]);
        }
        assert forall|j: int| 0 <= j < b0.len() implies a0.contains(#[trigger] b0[j]) by {
            assert(a.contains(b[j]));
            let k = choose|k: int| 0 <= k < a.len() && a[k] == b[j];
            assert(a0[k] == b0[j]);
        }
        lemma_increasing_equal(a0, b0);
        assert(a =~= a0.push(a[n]));
        assert(b =~= b0.push(b[n]));
    }
}

proof fn lemma_ranks_of_stable_order(flags: Seq<bool>, order: Seq<int>)
    requires
        is_stable_order(flags, order),
    ensures
        is_increasing(ranks(flags, order)),
        forall|i: int| 0 <= i < flags.len() ==> ranks(flags, order).contains(rank(flags, i)),
        forall|k: int|
            0 <= k < order.len() ==> 0 <= order[k] < flags.len() && #[trigger] ranks(
                flags,
                order,
            )[k] == rank(flags, order[k]),
{
    let r = ranks(flags, order);
    assert forall|j: int, k: int| 0 <= j < k < r.len() implies r[j] < r[k] by {
        assert(0 <= order[j] < flags.len());
        assert(0 <= order[k] < flags.len());
        if flags[order[j]] == flags[order[k]] {
            assert(order[j] < order[k]);
        } else {
            assert(flags[order[j]] ==> flags[order[k]]);
        }
    }
    assert forall|i: int| 0 <= i < flags.len() implies r.contains(rank(flags, i)) by {
        assert(order.contains(i));
        let k = choose|k: int| 0 <= k < order.len() && order[k] == i;
        assert(r[k] == rank(flags, i));
    }
}

/// The closed form is a stable sort: it holds every position once, clear
/// flags before set ones, and within each group the order of the list.
pub proof fn lemma_clear_then_set_is_stable(flags: Seq<bool>)
    ensures
        is_stable_order(flags, clear_then_set(flags)),
{
    let n = flags.len();
    let clear = positions_holding(flags, false);
    let set = positions_holding(flags, true);
    let order = clear_then_set(flags);
    lemma_prefix_holding(flags, false, n);
    lemma_prefix_holding(flags, true, n);
    assert(clear == prefix_holding(flags, false, n));
    assert(set == prefix_holding(flags, true, n));
    assert forall|i: int| 0 <= i < n implies order.contains(i) by {
        if flags[i] {
            assert(set.contains(i));
            let k = choose|k: int| 0 <= k < set.len() && set[k] == i;
            assert(order[clear.len() + k] == i);
        } else {
            assert(clear.contains(i));
            let k = choose|k: int| 0 <= k < clear.len() && clear[k] == i;
            assert(order[k] == i);
        }
    }
    assert forall|k: int| 0 <= k < order.len() implies 0 <= #[trigger] order[k] < n && flags[order[k]]
        == (k >= clear.len()) by {
        if k < clear.len() {
            assert(order[k] == clear[k]);
        } else {
            assert(order[k] == set[k - clear.len()]);
        }
    }
    assert forall|j: int, k: int|
        0 <= j < k < order.len() && flags[#[trigger] order[j]] == flags[#[trigger] order[k]]
        implies order[j] < order[k] by {
        if k < clear.len() {
            assert(order[j] == clear[j] && order[k] == clear[k]);
        } else {
            assert(j >= clear.len());
            assert(order[j] == set[j - clear.len()] && order[k] == set[k - clear.len()]);
        }
    }
    assert forall|j: int, k: int| 0 <= j < k < order.len() implies order[j] != order[k] by {
        if flags[order[j]] == flags[order[k]] {
            assert(order[j] < order[k]);
        }
    }
}

/// A stable sort is determined by the flags: it is the closed form.
pub proof fn lemma_stable_order_is_clear_then_set(flags: Seq<bool>, order: Seq<int>)
    requires
        is_stable_order(flags, order),
    ensures
        order == clear_then_set(flags),
{
    let other = clear_then_set(flags);
    lemma_clear_then_set_is_stable(flags);
    lemma_ranks_of_stable_order(flags, order);
    lemma_ranks_of_stable_order(flags, other);
    let a = ranks(flags, order);
    let b = ranks(flags, other);
    assert forall|j: int| 0 <= j < a.len() implies b.contains(#[trigger] a[j]) by {
        assert(b.contains(rank(flags, order[j])));
    }
    assert forall|j: int| 0 <= j < b.len() implies a.contains(#[trigger] b[j]) by {
        assert(a.contains(rank(flags, other[j])));
    }
    lemma_increasing_equal(a, b);
    assert forall|k: int| 0 <= k < order.len() implies order[k] == other[k] by {
        assert(a[k] == rank(flags, order[k]));
        assert(b[k] == rank(flags, other[k]));
    }
    assert(order =~= other);
}

/// Two texts each of which comes before the other, or is it, are one text.
pub proof fn lemma_text_le_antisymmetric(a: Seq<char>, b: Seq<char>)
    requires
        text_le(a, b),
        text_le(b, a),
    ensures
        a == b,
    decreases a.len(),
{
    if a.len() == 0 {
        assert(a =~= b);
    } else {
        lemma_text_le_antisymmetric(a.drop_first(), b.drop_first());
        assert(a =~= seq![a[0]] + a.drop_first());
        assert(b =~= seq![b[0]] + b.drop_first());
    }
}

/// The names that `order` runs through.
spec fn names_along(names: Seq<Seq<char>>, order: Seq<int>) -> Seq<Seq<char>> {
    Seq::new(order.len(), |k: int| names[order[k]])
}

spec fn is_name_within(a: Seq<Seq<char>>, b: Seq<Seq<char>>) -> bool {
    forall|j: int| 0 <= j < a.len() ==> b.contains(#[trigger] a[j])
}

spec fn never_descends(a: Seq<Seq<char>>) -> bool {
    forall|j: int, k: int| 0 <= j < k < a.len() ==> text_le(#[trigger] a[j], #[trigger] a[k])
}

spec fn all_differ(a: Seq<Seq<char>>) -> bool {
    forall|j: int, k: int| 0 <= j < k < a.len() ==> a[j] != a[k]
}

/// Two runs of one length through the same texts, none of them twice, that
/// never descend are one run.
proof fn lemma_sorted_texts_equal(a: Seq<Seq<char>>, b: Seq<Seq<char>>)
    requires
        a.len() == b.len(),
        never_descends(a),
        never_descends(b),
        all_differ(a),
        all_differ(b),
        is_name_within(a, b),
        is_name_within(b, a),
    ensures
        a == b,
    decreases a.len(),
{
    if a.len() == 0 {
        assert(a =~= b);
    } else {
        let n = a.len() - 1;
        assert(b.contains(a[n]));
        assert(a.contains(b[n]));
        let ja = choose|j: int| 0 <= j < b.len() && b[j] == a[n];
        let jb = choose|j: int| 0 <= j < a.len() && a[j] == b[n];
        if ja < n && jb < n {
            assert(text_le(b[ja], b[n]));
            assert(text_le(a[jb], a[n]));
            lemma_text_le_antisymmetric(a[n], b[n]);
        }
        assert(a[n] == b[n]);
        let a0 = a.drop_last();
        let b0 = b.drop_last();
        assert forall|j: int| 0 <= j < a0.len() implies b0.contains(#[trigger] a0[j]) by {
            assert(b.contains(a[j]));
            let k = choose|k: int| 0 <= k < b.len() && b[k] == a[j];
            assert(a[j] != a[n]);
            assert(b0[k] == a0[j]);
        }
        assert forall|j: int| 0 <= j < b0.len() implies a0.contains(#[trigger] b0[j]) by {
            assert(a.contains(b[j]));
            let k = choose|k: int| 0 <= k < a.len() && a[k] == b[j];
            assert(b[j] != b[n]);
            assert(a0[k] == b0[j]);
        }
        assert(never_descends(a0)) by {
            assert forall|j: int, k: int| 0 <= j < k < a0.len() implies text_le(
                #[trigger] a0[j],
                #[trigger] a0[k],
            ) by {
                assert(text_le(a[j], a[k]));
            }
        }
        assert(never_descends(b0)) by {
            assert forall|j: int, k: int| 0 <= j < k < b0.len() implies text_le(
                #[trigger] b0[j],
                #[trigger] b0[k],
            ) by {
                assert(text_le(b[j], b[k]));
            }
        }
        lemma_sorted_texts_equal(a0, b0);
        assert(a =~= a0.push(a[n]));
        assert(b =~= b0.push(b[n]));
    }
}

proof fn lemma_names_along(names: Seq<Seq<char>>, order: Seq<int>)
    requires
        forall|i: int, j: int| 0 <= i < j < names.len() ==> names[i] != names[j],
        is_sorted_by_name(names, order),
    ensures
        never_descends(names_along(names, order)),
        all_differ(names_along(names, order)),
        forall|i: int| 0 <= i < names.len() ==> names_along(names, order).contains(names[i]),
{
    let along = names_along(names, order);
    assert forall|j: int, k: int| 0 <= j < k < along.len() implies text_le(
        #[trigger] along[j],
        #[trigger] along[k],
    ) by {
        assert(text_le(names[order[j]], names[order[k]]));
    }
    assert forall|j: int, k: int| 0 <= j < k < along.len() implies along[j] != along[k] by {
        assert(order[j] != order[k]);
        assert(0 <= order[j] < names.len() && 0 <= order[k] < names.len());
    }
    assert forall|i: int| 0 <= i < names.len() implies along.contains(names[i]) by {
        assert(order.contains(i));
        let k = choose|k: int| 0 <= k < order.len() && order[k] == i;
        assert(along[k] == names[i]);
    }
}

/// Where no name comes twice, the order by name is determined by the names:
/// two orders that are sorted by name are one.
pub proof fn lemma_sorted_by_name_is_unique(names: Seq<Seq<char>>, a: Seq<int>, b: Seq<int>)
    requires
        forall|i: int, j: int| 0 <= i < j < names.len() ==> names[i] != names[j],
        is_sorted_by_name(names, a),
        is_sorted_by_name(names, b),
    ensures
        a == b,
{
    let x = names_along(names, a);
    let y = names_along(names, b);
    lemma_names_along(names, a);
    lemma_names_along(names, b);
    assert forall|j: int| 0 <= j < x.len() implies y.contains(#[trigger] x[j]) by {
        assert(0 <= a[j] < names.len());
        assert(y.contains(names[a[j]]));
    }
    assert forall|j: int| 0 <= j < y.len() implies x.contains(#[trigger] y[j]) by {
        assert(0 <= b[j] < names.len());
        assert(x.contains(names[b[j]]));
    }
    lemma_sorted_texts_equal(x, y);
    assert forall|k: int| 0 <= k < a.len() implies a[k] == b[k] by {
        assert(x[k] == y[k]);
        assert(0 <= a[k] < names.len() && 0 <= b[k] < names.len());
        assert(names[a[k]] == names[b[k]]);
    }
    assert(a =~= b);
}

} // verus!
