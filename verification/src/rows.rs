//! Keeping a list of rows in step with the latest items, without rebuilding
//! rows that are still wanted.
//!
//! Each row carries the key of the item it shows, or no key while it is
//! still being built. The plan removes the rows whose item is gone, updates
//! the first row of each item that is still there, and appends a row for
//! each new item.

use vstd::prelude::*;

verus! {

/// One step of bringing the rows up to date.
#[derive(Debug, Clone, Copy, PartialEq, Eq, Structural)]
pub enum RowOp {
    /// Remove the row at this index.
    Remove(usize),
    /// Show item `item` in the row at index `row`.
    Update { row: usize, item: usize },
    /// Append a row showing item `item`.
    Append(usize),
}

/// A row whose item is no longer wanted. A row still without a key is kept.
pub open spec fn is_stale(key: Option<u64>, wanted: Seq<u64>) -> bool {
    key matches Some(k) && !wanted.contains(k)
}

/// The removals of the stale rows, from the last row to the first, so that
/// each index still refers to the row it was computed for.
pub open spec fn stale_removals(rows: Seq<Option<u64>>, wanted: Seq<u64>) -> Seq<RowOp>
    decreases rows.len(),
{
    if rows.len() == 0 {
        Seq::empty()
    } else {
        let rest = stale_removals(rows.drop_last(), wanted);
        if is_stale(rows.last(), wanted) {
            seq![RowOp::Remove((rows.len() - 1) as usize)] + rest
        } else {
            rest
        }
    }
}

/// The rows that are not stale, in order.
pub open spec fn survivors(rows: Seq<Option<u64>>, wanted: Seq<u64>) -> Seq<Option<u64>>
    decreases rows.len(),
{
    if rows.len() == 0 {
        Seq::empty()
    } else {
        let rest = survivors(rows.drop_last(), wanted);
        if is_stale(rows.last(), wanted) {
            rest
        } else {
            rest.push(rows.last())
        }
    }
}

/// The index of the first row with this key.
pub open spec fn first_row(rows: Seq<Option<u64>>, key: u64) -> Option<int>
    decreases rows.len(),
{
    if rows.len() == 0 {
        None
    } else {
        match first_row(rows.drop_last(), key) {
            Some(i) => Some(i),
            None => if rows.last() == Some(key) {
                Some(rows.len() - 1)
            } else {
                None
            },
        }
    }
}

/// The steps that place the first `count` wanted items, starting from
/// `rows`, and the rows' keys after them: an item whose key has a row
/// updates the first such row; any other item gets a new row.
pub open spec fn placements(rows: Seq<Option<u64>>, wanted: Seq<u64>, count: nat) -> (
    Seq<RowOp>,
    Seq<Option<u64>>,
)
    decreases count,
{
    if count == 0 {
        (Seq::empty(), rows)
    } else {
        let (ops, now) = placements(rows, wanted, (count - 1) as nat);
        let key = wanted[count - 1];
        match first_row(now, key) {
            Some(p) => (ops.push(RowOp::Update { row: p as usize, item: (count - 1) as usize }), now),
            None => (ops.push(RowOp::Append((count - 1) as usize)), now.push(Some(key))),
        }
    }
}

/// The whole plan: the stale rows go, then each wanted item is placed.
pub open spec fn row_plan(rows: Seq<Option<u64>>, wanted: Seq<u64>) -> Seq<RowOp> {
    stale_removals(rows, wanted) + placements(survivors(rows, wanted), wanted, wanted.len()).0
}

/// The rows' keys after one step.
pub open spec fn apply_op(rows: Seq<Option<u64>>, op: RowOp, wanted: Seq<u64>) -> Seq<Option<u64>> {
    match op {
        RowOp::Remove(i) => if i < rows.len() {
            rows.remove(i as int)
        } else {
            rows
        },
        RowOp::Update { .. } => rows,
        RowOp::Append(j) => rows.push(Some(wanted[j as int])),
    }
}

/// The rows' keys after the steps, in order.
pub open spec fn apply_ops(rows: Seq<Option<u64>>, ops: Seq<RowOp>, wanted: Seq<u64>) -> Seq<
    Option<u64>,
>
    decreases ops.len(),
{
    if ops.len() == 0 {
        rows
    } else {
        apply_ops(apply_op(rows, ops[0], wanted), ops.drop_first(), wanted)
    }
}

proof fn lemma_apply_concat(rows: Seq<Option<u64>>, a: Seq<RowOp>, b: Seq<RowOp>, wanted: Seq<u64>)
    ensures
        apply_ops(rows, a + b, wanted) == apply_ops(apply_ops(rows, a, wanted), b, wanted),
    decreases a.len(),
{
    if a.len() == 0 {
        assert(a + b =~= b);
    } else {
        assert((a + b).drop_first() =~= a.drop_first() + b);
        lemma_apply_concat(apply_op(rows, a[0], wanted), a.drop_first(), b, wanted);
    }
}

/// Removing the stale rows of a prefix of `rows`, from `other` that agrees
/// with `rows` on that prefix, leaves the prefix's survivors followed by
/// the rest of `other`.
proof fn lemma_removals(rows: Seq<Option<u64>>, other: Seq<Option<u64>>, k: int, wanted: Seq<u64>)
    requires
        0 <= k <= rows.len(),
        rows.len() <= usize::MAX,
        k <= other.len(),
        other.subrange(0, k) == rows.subrange(0, k),
    ensures
        apply_ops(other, stale_removals(rows.subrange(0, k), wanted), wanted) == survivors(
            rows.subrange(0, k),
            wanted,
        ) + other.subrange(k, other.len() as int),
    decreases k,
{
    let prefix = rows.subrange(0, k);
    if k == 0 {
        assert(other.subrange(0, other.len() as int) =~= other);
        assert(survivors(prefix, wanted) =~= Seq::<Option<u64>>::empty());
        assert(Seq::<Option<u64>>::empty() + other.subrange(0, other.len() as int) =~= other);
    } else {
        assert(prefix.drop_last() =~= rows.subrange(0, k - 1));
        let rest_ops = stale_removals(rows.subrange(0, k - 1), wanted);
        assert(other[k - 1] == rows[k - 1]) by {
            assert(other.subrange(0, k)[k - 1] == rows.subrange(0, k)[k - 1]);
        }
        if is_stale(prefix.last(), wanted) {
            let ops = seq![RowOp::Remove((k - 1) as usize)] + rest_ops;
            assert(stale_removals(prefix, wanted) == ops);
            assert(ops.drop_first() =~= rest_ops);
            let shorter = other.remove(k - 1);
            assert(apply_op(other, ops[0], wanted) == shorter);
            assert(survivors(prefix, wanted) == survivors(rows.subrange(0, k - 1), wanted));
            assert(shorter.subrange(0, k - 1) =~= rows.subrange(0, k - 1));
            lemma_removals(rows, shorter, k - 1, wanted);
            assert(shorter.subrange(k - 1, shorter.len() as int) =~= other.subrange(
                k,
                other.len() as int,
            ));
        } else {
            assert(other.subrange(0, k - 1) =~= rows.subrange(0, k - 1));
            assert(stale_removals(prefix, wanted) == rest_ops);
            assert(survivors(prefix, wanted) == survivors(rows.subrange(0, k - 1), wanted).push(
                prefix.last(),
            ));
            lemma_removals(rows, other, k - 1, wanted);
            assert(other.subrange(k - 1, other.len() as int) =~= seq![other[k - 1]]
                + other.subrange(k, other.len() as int));
            assert(survivors(rows.subrange(0, k - 1), wanted) + other.subrange(
                k - 1,
                other.len() as int,
            ) =~= survivors(rows.subrange(0, k - 1), wanted).push(prefix.last()) + other.subrange(
                k,
                other.len() as int,
            ));
        }
    }
}

proof fn lemma_first_row(rows: Seq<Option<u64>>, key: u64)
    ensures
        first_row(rows, key) matches Some(p) ==> 0 <= p < rows.len() && rows[p] == Some(key),
        first_row(rows, key) is None ==> !rows.contains(Some(key)),
    decreases rows.len(),
{
    if rows.len() > 0 {
        lemma_first_row(rows.drop_last(), key);
        if first_row(rows, key) is None {
            assert forall|i: int| 0 <= i < rows.len() implies rows[i] != Some(key) by {
                if i < rows.len() - 1 {
                    assert(rows.drop_last()[i] == rows[i]);
                }
            }
        }
    }
}

/// What placing the first `count` items does to the rows: the starting
/// rows stay in front, only wanted keys are added, and each placed item has
/// a row.
proof fn lemma_placements(start: Seq<Option<u64>>, wanted: Seq<u64>, count: nat)
    requires
        count <= wanted.len(),
        wanted.len() <= usize::MAX,
    ensures
        apply_ops(start, placements(start, wanted, count).0, wanted) == placements(
            start,
            wanted,
            count,
        ).1,
        placements(start, wanted, count).0.len() == count,
        forall|j: int|
            0 <= j < count ==> match #[trigger] placements(start, wanted, count).0[j] {
                RowOp::Update { row, item } => item == j,
                RowOp::Append(item) => item == j,
                RowOp::Remove(_) => false,
            },
        placements(start, wanted, count).1.len() >= start.len(),
        placements(start, wanted, count).1.subrange(0, start.len() as int) == start,
        forall|k: u64|
            #[trigger] placements(start, wanted, count).1.contains(Some(k)) ==> start.contains(
                Some(k),
            ) || wanted.subrange(0, count as int).contains(k),
        forall|j: int|
            0 <= j < count ==> placements(start, wanted, count).1.contains(Some(#[trigger] wanted[j])),
    decreases count,
{
    if count == 0 {
        assert(start.subrange(0, start.len() as int) =~= start);
    } else {
        let c1 = (count - 1) as nat;
        lemma_placements(start, wanted, c1);
        let (ops, now) = placements(start, wanted, c1);
        let key = wanted[count - 1];
        lemma_first_row(now, key);
        let (ops2, now2) = placements(start, wanted, count);
        lemma_apply_concat(start, ops, seq![ops2.last()], wanted);
        assert(ops2 =~= ops + seq![ops2.last()]);
        assert(seq![ops2.last()].drop_first() =~= Seq::<RowOp>::empty());
        let single = seq![ops2.last()];
        assert(single[0] == ops2.last());
        assert(apply_ops(apply_op(now, ops2.last(), wanted), single.drop_first(), wanted) == apply_op(
            now,
            ops2.last(),
            wanted,
        ));
        assert(apply_ops(now, single, wanted) == apply_op(now, ops2.last(), wanted));
        assert(apply_op(now, ops2.last(), wanted) == now2);
        assert(now2.subrange(0, start.len() as int) =~= start) by {
            assert(now2.subrange(0, start.len() as int) =~= now.subrange(0, start.len() as int));
        }
        assert forall|k: u64| #[trigger] now2.contains(Some(k)) implies start.contains(Some(k))
            || wanted.subrange(0, count as int).contains(k) by {
            let i = choose|i: int| 0 <= i < now2.len() && now2[i] == Some(k);
            if i < now.len() {
                assert(now[i] == Some(k));
                assert(now.contains(Some(k)));
                if wanted.subrange(0, c1 as int).contains(k) {
                    let t = choose|t: int| 0 <= t < c1 && wanted.subrange(0, c1 as int)[t] == k;
                    assert(wanted.subrange(0, count as int)[t] == k);
                }
            } else {
                assert(wanted.subrange(0, count as int)[count - 1] == k);
            }
        }
        assert forall|j: int| 0 <= j < count implies now2.contains(Some(#[trigger] wanted[j])) by {
            if j < c1 {
                assert(now.contains(Some(wanted[j])));
                let i = choose|i: int| 0 <= i < now.len() && now[i] == Some(wanted[j]);
                assert(now2[i] == Some(wanted[j]));
            } else {
                match first_row(now, key) {
                    Some(p) => {
                        assert(now2[p] == Some(key));
                    },
                    None => {
                        assert(now2[now2.len() - 1] == Some(key));
                    },
                }
            }
        }
        assert forall|j: int| 0 <= j < count implies match #[trigger] ops2[j] {
            RowOp::Update { row, item } => item == j,
            RowOp::Append(item) => item == j,
            RowOp::Remove(_) => false,
        } by {
            if j < c1 {
                assert(ops2[j] == ops[j]);
            }
        }
    }
}

/// What the plan does to the rows: the rows that are still wanted (and
/// those still without a key) stay, in their order, in front; afterwards
/// the rows show exactly the wanted keys, each wanted item being placed by
/// exactly one update or append, in item order.
pub proof fn lemma_plan_brings_rows_up_to_date(rows: Seq<Option<u64>>, wanted: Seq<u64>)
    requires
        rows.len() <= usize::MAX,
        wanted.len() <= usize::MAX,
    ensures
        ({
            let after = apply_ops(rows, row_plan(rows, wanted), wanted);
            let kept = survivors(rows, wanted);
            let placing = placements(kept, wanted, wanted.len()).0;
            &&& after.len() >= kept.len()
            &&& after.subrange(0, kept.len() as int) == kept
            &&& forall|k: u64| #[trigger] after.contains(Some(k)) <==> wanted.contains(k)
            &&& placing.len() == wanted.len()
            &&& forall|j: int|
                0 <= j < wanted.len() ==> match #[trigger] placing[j] {
                    RowOp::Update { row, item } => item == j,
                    RowOp::Append(item) => item == j,
                    RowOp::Remove(_) => false,
                }
        }),
{
    let kept = survivors(rows, wanted);
    assert(rows.subrange(0, rows.len() as int) =~= rows);
    lemma_removals(rows, rows, rows.len() as int, wanted);
    assert(rows.subrange(rows.len() as int, rows.len() as int) =~= Seq::<Option<u64>>::empty());
    assert(kept + Seq::<Option<u64>>::empty() =~= kept);
    lemma_apply_concat(
        rows,
        stale_removals(rows, wanted),
        placements(kept, wanted, wanted.len()).0,
        wanted,
    );
    lemma_placements(kept, wanted, wanted.len());
    lemma_survivors_wanted(rows, wanted);
    let after = apply_ops(rows, row_plan(rows, wanted), wanted);
    assert(wanted.subrange(0, wanted.len() as int) =~= wanted);
    assert forall|k: u64| #[trigger] after.contains(Some(k)) <==> wanted.contains(k) by {
        if wanted.contains(k) {
            let j = choose|j: int| 0 <= j < wanted.len() && wanted[j] == k;
            assert(after.contains(Some(wanted[j])));
        }
    }
}

/// A surviving row with a key shows a wanted item.
proof fn lemma_survivors_wanted(rows: Seq<Option<u64>>, wanted: Seq<u64>)
    ensures
        forall|k: u64| #[trigger] survivors(rows, wanted).contains(Some(k)) ==> wanted.contains(k),
    decreases rows.len(),
{
    if rows.len() > 0 {
        lemma_survivors_wanted(rows.drop_last(), wanted);
        let rest = survivors(rows.drop_last(), wanted);
        assert forall|k: u64| #[trigger] survivors(rows, wanted).contains(Some(k)) implies wanted.contains(
            k,
        ) by {
            let all = survivors(rows, wanted);
            let i = choose|i: int| 0 <= i < all.len() && all[i] == Some(k);
            if i < rest.len() {
                assert(rest[i] == Some(k));
                assert(rest.contains(Some(k)));
            }
        }
    }
}

fn contains_key(wanted: &Vec<u64>, key: u64) -> (b: bool)
    ensures
        b == wanted@.contains(key),
{
    let mut i: usize = 0;
    while i < wanted.len()
        invariant
            i <= wanted@.len(),
            forall|k: int| 0 <= k < i ==> wanted@[k] != key,
        decreases wanted.len() - i,
    {
        if wanted[i] == key {
            return true;
        }
        i = i + 1;
    }
    false
}

fn stale(key: Option<u64>, wanted: &Vec<u64>) -> (b: bool)
    ensures
        b == is_stale(key, wanted@),
{
    match key {
        Some(k) => !contains_key(wanted, k),
        None => false,
    }
}

fn find_first(rows: &Vec<Option<u64>>, key: u64) -> (p: Option<usize>)
    ensures
        match p {
            Some(i) => first_row(rows@, key) == Some(i as int),
            None => first_row(rows@, key) is None,
        },
{
    let mut i: usize = 0;
    while i < rows.len()
        invariant
            i <= rows@.len(),
            first_row(rows@.subrange(0, i as int), key) is None,
        decreases rows.len() - i,
    {
        proof {
            assert(rows@.subrange(0, i + 1).drop_last() =~= rows@.subrange(0, i as int));
        }
        if rows[i] == Some(key) {
            proof {
                lemma_first_row_prefix(rows@, i as int + 1, key);
            }
            return Some(i);
        }
        i = i + 1;
    }
    proof {
        assert(rows@.subrange(0, i as int) =~= rows@);
    }
    None
}

/// The first row with a key found in a prefix is the first row overall.
proof fn lemma_first_row_prefix(rows: Seq<Option<u64>>, k: int, key: u64)
    requires
        0 <= k <= rows.len(),
        first_row(rows.subrange(0, k), key) is Some,
    ensures
        first_row(rows, key) == first_row(rows.subrange(0, k), key),
    decreases rows.len() - k,
{
    if k < rows.len() {
        assert(rows.subrange(0, k + 1).drop_last() =~= rows.subrange(0, k));
        lemma_first_row_prefix(rows, k + 1, key);
    } else {
        assert(rows.subrange(0, k) =~= rows);
    }
}

/// Plans how to bring rows showing the keys `rows` up to date with the
/// items keyed `wanted`: removes the rows whose item disappeared, updates
/// the rows that still exist in place, and appends the new ones, instead of
/// clearing and rebuilding the whole list.
///
/// Existing rows are not reordered to match a changed order of the items.
pub fn plan_rows(rows: &Vec<Option<u64>>, wanted: &Vec<u64>) -> (plan: Vec<RowOp>)
    ensures
        plan@ == row_plan(rows@, wanted@),
{
    let n = rows.len();
    let mut removals: Vec<RowOp> = Vec::new();
    let mut i: usize = n;
    proof {
        assert(rows@.subrange(0, n as int) =~= rows@);
        assert(removals@ + stale_removals(rows@, wanted@) =~= stale_removals(rows@, wanted@));
    }
    while i > 0
        invariant
            n == rows@.len(),
            i <= n,
            removals@ + stale_removals(rows@.subrange(0, i as int), wanted@) == stale_removals(
                rows@,
                wanted@,
            ),
        decreases i,
    {
        proof {
            assert(rows@.subrange(0, i as int).drop_last() =~= rows@.subrange(0, i - 1));
        }
        if stale(rows[i - 1], wanted) {
            proof {
                assert(removals@.push(RowOp::Remove((i - 1) as usize)) + stale_removals(
                    rows@.subrange(0, i - 1),
                    wanted@,
                ) =~= removals@ + (seq![RowOp::Remove((i - 1) as usize)] + stale_removals(
                    rows@.subrange(0, i - 1),
                    wanted@,
                )));
            }
            removals.push(RowOp::Remove(i - 1));
        }
        i = i - 1;
    }
    proof {
        assert(removals@ =~= removals@ + stale_removals(rows@.subrange(0, 0), wanted@));
    }
    let mut kept: Vec<Option<u64>> = Vec::new();
    let mut k: usize = 0;
    while k < n
        invariant
            n == rows@.len(),
            k <= n,
            kept@ == survivors(rows@.subrange(0, k as int), wanted@),
        decreases n - k,
    {
        proof {
            assert(rows@.subrange(0, k + 1).drop_last() =~= rows@.subrange(0, k as int));
        }
        if !stale(rows[k], wanted) {
            kept.push(rows[k]);
        }
        k = k + 1;
    }
    proof {
        assert(rows@.subrange(0, n as int) =~= rows@);
    }
    let ghost start = kept@;
    let mut plan = removals;
    let ghost removed = plan@;
    let m = wanted.len();
    let mut j: usize = 0;
    while j < m
        invariant
            m == wanted@.len(),
            j <= m,
            plan@ == removed + placements(start, wanted@, j as nat).0,
            kept@ == placements(start, wanted@, j as nat).1,
        decreases m - j,
    {
        let key = wanted[j];
        match find_first(&kept, key) {
            Some(p) => {
                plan.push(RowOp::Update { row: p, item: j });
            },
            None => {
                plan.push(RowOp::Append(j));
                kept.push(Some(key));
            },
        }
        proof {
            assert(plan@ =~= removed + placements(start, wanted@, (j + 1) as nat).0);
        }
        j = j + 1;
    }
    plan
}

} // verus!
