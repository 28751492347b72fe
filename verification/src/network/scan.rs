//! Deduplication and ordering of wifi scan results.

use vstd::prelude::*;

use crate::network::state::AccessPointSummary;
use crate::network::types::ApSecurity;
use crate::text::{decode_utf8_lossy, trim, trimmed, utf8_lossy};

verus! {

/// The SSID an access point broadcasts, as the shell shows it: the bytes
/// decoded leniently; none when the bytes are empty or decode to nothing
/// but whitespace (hidden networks broadcast such SSIDs).
pub open spec fn usable_ssid(bytes: Seq<u8>) -> Option<Seq<char>> {
    if bytes.len() == 0 || trimmed(utf8_lossy(bytes)).len() == 0 {
        None
    } else {
        Some(utf8_lossy(bytes))
    }
}

/// Decodes an SSID read from NetworkManager, if it is usable.
pub fn ssid_from_bytes(bytes: &[u8]) -> (ssid: Option<String>)
    ensures
        match ssid {
            Some(s) => usable_ssid(bytes@) == Some(s@),
            None => usable_ssid(bytes@) is None,
        },
{
    if bytes.len() == 0 {
        return None;
    }
    let ssid = decode_utf8_lossy(bytes);
    if trim(ssid.as_str()).unicode_len() == 0 {
        return None;
    }
    Some(ssid)
}

/// A single access point reading, before deduplication by SSID.
#[derive(Debug, Clone)]
pub struct RawApReading {
    pub ssid: String,
    pub strength: u8,
    pub security: ApSecurity,
}

/// A saved NetworkManager connection profile for a wifi network.
#[derive(Debug, Clone)]
pub struct SavedConnection {
    pub ssid: String,
    /// The profile's D-Bus object path.
    pub path: String,
}

/// The strongest reading for `ssid` among `readings`; among equally strong
/// readings the earliest one wins.
pub open spec fn strongest_reading(readings: Seq<RawApReading>, ssid: Seq<char>) -> Option<
    RawApReading,
>
    decreases readings.len(),
{
    if readings.len() == 0 {
        None
    } else {
        let previous = strongest_reading(readings.drop_last(), ssid);
        let last = readings.last();
        if last.ssid@ == ssid && (previous is None || last.strength > previous->0.strength) {
            Some(last)
        } else {
            previous
        }
    }
}

/// Appending a reading only changes the strongest reading of its own SSID.
proof fn lemma_strongest_push(readings: Seq<RawApReading>, reading: RawApReading)
    ensures
        forall|ssid: Seq<char>|
            #[trigger] strongest_reading(readings.push(reading), ssid) == {
                let previous = strongest_reading(readings, ssid);
                if reading.ssid@ == ssid && (previous is None || reading.strength
                    > previous->0.strength) {
                    Some(reading)
                } else {
                    previous
                }
            },
{
    assert forall|ssid: Seq<char>|
        #[trigger] strongest_reading(readings.push(reading), ssid) == {
            let previous = strongest_reading(readings, ssid);
            if reading.ssid@ == ssid && (previous is None || reading.strength
                > previous->0.strength) {
                Some(reading)
            } else {
                previous
            }
        } by {
        assert(readings.push(reading).drop_last() =~= readings);
    }
}

/// The path of the profile saved for `ssid`; when several entries name the
/// same SSID, the last one wins.
pub open spec fn saved_path(saved: Seq<SavedConnection>, ssid: Seq<char>) -> Option<Seq<char>>
    decreases saved.len(),
{
    if saved.len() == 0 {
        None
    } else if saved.last().ssid@ == ssid {
        Some(saved.last().path@)
    } else {
        saved_path(saved.drop_last(), ssid)
    }
}

/// `summary` is the menu row for `reading`.
pub open spec fn summarizes(
    summary: AccessPointSummary,
    reading: RawApReading,
    active_ssid: Option<Seq<char>>,
    saved: Seq<SavedConnection>,
) -> bool {
    &&& summary.ssid@ == reading.ssid@
    &&& summary.strength == reading.strength
    &&& summary.security == reading.security
    &&& summary.is_active == (active_ssid == Some(reading.ssid@))
    &&& match (summary.saved_connection, saved_path(saved, reading.ssid@)) {
        (Some(path), Some(expected)) => path@ == expected,
        (None, None) => true,
        _ => false,
    }
}

/// Sort key of a row: the active connection first, then by descending
/// signal strength.
pub open spec fn row_rank(summary: AccessPointSummary) -> int {
    (if summary.is_active {
        256int
    } else {
        0int
    }) + summary.strength as int
}

/// Groups raw per-BSSID readings by SSID (keeping only the strongest signal
/// for each), attaches active/saved status, and sorts with the active
/// connection first, then by descending signal strength.
///
/// Rows of equal rank come out in the order their SSIDs first appear;
/// the contract leaves that order open.
pub fn dedupe_and_sort(
    readings: Vec<RawApReading>,
    active_ssid: Option<&str>,
    saved: &Vec<SavedConnection>,
) -> (rows: Vec<AccessPointSummary>)
    ensures
        forall|i: int|
            0 <= i < rows@.len() ==> (#[trigger] strongest_reading(readings@, rows@[i].ssid@) matches Some(
                best,
            ) && summarizes(
                rows@[i],
                best,
                match active_ssid {
                    Some(a) => Some(a@),
                    None => None,
                },
                saved@,
            )),
        forall|i: int, j: int|
            0 <= i < rows@.len() && 0 <= j < rows@.len() && i != j ==> #[trigger] rows@[i].ssid@
                != #[trigger] rows@[j].ssid@,
        forall|k: int|
            0 <= k < readings@.len() ==> exists|i: int|
                0 <= i < rows@.len() && #[trigger] rows@[i].ssid@ == #[trigger] readings@[k].ssid@,
        forall|i: int, j: int|
            0 <= i < j < rows@.len() ==> row_rank(#[trigger] rows@[i]) >= row_rank(
                #[trigger] rows@[j],
            ),
{
    let groups = strongest_by_ssid(&readings);
    let ghost active = match active_ssid {
        Some(a) => Some(a@),
        None => None,
    };
    let summaries = summarize_all(&readings, groups, active_ssid, saved);
    let ghost unsorted = summaries@;
    let rows = sort_by_rank(summaries);
    proof {
        lemma_reordered_rows(readings@, unsorted, rows@, active, saved@);
    }
    rows
}

/// `groups` holds, once per SSID, the strongest reading of every SSID that
/// occurs in `readings`.
pub open spec fn grouped(readings: Seq<RawApReading>, groups: Seq<RawApReading>) -> bool {
    &&& forall|j: int|
        0 <= j < groups.len() ==> strongest_reading(readings, #[trigger] groups[j].ssid@) == Some(
            groups[j],
        )
    &&& forall|a: int, b: int|
        0 <= a < groups.len() && 0 <= b < groups.len() && a != b ==> #[trigger] groups[a].ssid@
            != #[trigger] groups[b].ssid@
    &&& forall|s: Seq<char>|
        #[trigger] strongest_reading(readings, s) is Some ==> exists|j: int|
            0 <= j < groups.len() && groups[j].ssid@ == s
}

/// Every SSID that occurs in `readings` has a strongest reading.
proof fn lemma_occurring_has_strongest(readings: Seq<RawApReading>, k: int)
    requires
        0 <= k < readings.len(),
    ensures
        strongest_reading(readings, readings[k].ssid@) is Some,
    decreases readings.len(),
{
    if k < readings.len() - 1 {
        lemma_occurring_has_strongest(readings.drop_last(), k);
        assert(readings.drop_last()[k] == readings[k]);
    }
}

/// Folding one more reading into the groups keeps them grouped.
proof fn lemma_group_step(
    prefix: Seq<RawApReading>,
    reading: RawApReading,
    before: Seq<RawApReading>,
    after: Seq<RawApReading>,
    found: Option<int>,
)
    requires
        grouped(prefix, before),
        found is None ==> {
            &&& forall|m: int| 0 <= m < before.len() ==> #[trigger] before[m].ssid@ != reading.ssid@
            &&& after == before.push(reading)
        },
        found matches Some(f) ==> {
            &&& 0 <= f < before.len()
            &&& before[f].ssid@ == reading.ssid@
            &&& after == if reading.strength > before[f].strength {
                before.update(f, reading)
            } else {
                before
            }
        },
    ensures
        grouped(prefix.push(reading), after),
{
    let next = prefix.push(reading);
    lemma_strongest_push(prefix, reading);
    assert forall|m: int| 0 <= m < after.len() implies strongest_reading(
        next,
        #[trigger] after[m].ssid@,
    ) == Some(after[m]) by {
        if m < before.len() {
            assert(strongest_reading(prefix, before[m].ssid@) == Some(before[m]));
            match found {
                Some(f) => {
                    if m != f {
                        assert(before[m].ssid@ != before[f].ssid@);
                        assert(after[m] == before[m]);
                    }
                },
                None => {
                    assert(after[m] == before[m]);
                },
            }
        } else {
            assert(after[m] == reading);
            if strongest_reading(prefix, reading.ssid@) is Some {
                let m0 = choose|j: int| 0 <= j < before.len() && before[j].ssid@ == reading.ssid@;
                assert(before[m0].ssid@ != reading.ssid@);
            }
        }
    }
    assert forall|a: int, b: int|
        0 <= a < after.len() && 0 <= b < after.len() && a != b implies #[trigger] after[a].ssid@
            != #[trigger] after[b].ssid@ by {
        if a < before.len() {
            assert(after[a].ssid@ == before[a].ssid@);
        }
        if b < before.len() {
            assert(after[b].ssid@ == before[b].ssid@);
        }
    }
    assert forall|t: Seq<char>| #[trigger]
        strongest_reading(next, t) is Some implies exists|j: int|
            0 <= j < after.len() && after[j].ssid@ == t by {
        if t == reading.ssid@ {
            match found {
                Some(f) => {
                    assert(after[f].ssid@ == t);
                },
                None => {
                    assert(after[after.len() - 1].ssid@ == t);
                },
            }
        } else {
            assert(strongest_reading(prefix, t) is Some);
            let m0 = choose|j: int| 0 <= j < before.len() && before[j].ssid@ == t;
            assert(after[m0].ssid@ == t);
        }
    }
}

/// The row properties of `dedupe_and_sort` carry over from `unsorted` to
/// any reordering of it.
proof fn lemma_reordered_rows(
    readings: Seq<RawApReading>,
    unsorted: Seq<AccessPointSummary>,
    rows: Seq<AccessPointSummary>,
    active: Option<Seq<char>>,
    saved: Seq<SavedConnection>,
)
    requires
        forall|i: int|
            0 <= i < unsorted.len() ==> (#[trigger] strongest_reading(readings, unsorted[i].ssid@) matches Some(
                best,
            ) && summarizes(unsorted[i], best, active, saved)),
        forall|k: int|
            0 <= k < readings.len() ==> exists|i: int|
                0 <= i < unsorted.len() && #[trigger] unsorted[i].ssid@ == #[trigger] readings[k].ssid@,
        placed(rows, unsorted, 0),
    ensures
        forall|i: int|
            0 <= i < rows.len() ==> (#[trigger] strongest_reading(readings, rows[i].ssid@) matches Some(
                best,
            ) && summarizes(rows[i], best, active, saved)),
        forall|k: int|
            0 <= k < readings.len() ==> exists|i: int|
                0 <= i < rows.len() && #[trigger] rows[i].ssid@ == #[trigger] readings[k].ssid@,
{
    reveal(placed);
    assert forall|i: int| 0 <= i < rows.len() implies (#[trigger] strongest_reading(
        readings,
        rows[i].ssid@,
    ) matches Some(best) && summarizes(rows[i], best, active, saved)) by {
        let k = choose|k: int| 0 <= k < unsorted.len() && #[trigger] rows[i] == #[trigger] unsorted[k];
        assert(strongest_reading(readings, unsorted[k].ssid@) matches Some(best) && summarizes(
            unsorted[k],
            best,
            active,
            saved,
        ));
    }
    assert forall|k: int| 0 <= k < readings.len() implies exists|i: int|
        0 <= i < rows.len() && #[trigger] rows[i].ssid@ == #[trigger] readings[k].ssid@ by {
        let j = choose|j: int|
            0 <= j < unsorted.len() && #[trigger] unsorted[j].ssid@ == #[trigger] readings[k].ssid@;
        let m = choose|m: int| 0 <= m < rows.len() && #[trigger] rows[m] == #[trigger] unsorted[j];
        assert(rows[m].ssid@ == readings[k].ssid@);
    }
}

/// The strongest reading of each SSID, in order of first appearance.
fn strongest_by_ssid(readings: &Vec<RawApReading>) -> (groups: Vec<RawApReading>)
    ensures
        grouped(readings@, groups@),
{
    let mut groups: Vec<RawApReading> = Vec::new();
    let n = readings.len();
    proof {
        assert(readings@.take(0) =~= Seq::<RawApReading>::empty());
    }
    for i in 0..n
        invariant
            n == readings@.len(),
            grouped(readings@.take(i as int), groups@),
    {
        let reading = &readings[i];
        let ghost prefix = readings@.take(i as int);
        let ghost before = groups@;
        proof {
            assert(readings@.take(i as int + 1) =~= prefix.push(*reading));
        }
        let mut found: Option<usize> = None;
        let mut j: usize = 0;
        while j < groups.len()
            invariant
                j <= groups@.len(),
                groups@ == before,
                found is None ==> forall|m: int| 0 <= m < j ==> #[trigger] groups@[m].ssid@ != reading.ssid@,
                found matches Some(f) ==> f < groups@.len() && groups@[f as int].ssid@ == reading.ssid@,
            decreases groups@.len() - j,
        {
            if found.is_none() && groups[j].ssid == reading.ssid {
                found = Some(j);
            }
            j = j + 1;
        }
        let copy = RawApReading {
            ssid: reading.ssid.clone(),
            strength: reading.strength,
            security: reading.security,
        };
        proof {
            assert(copy == *reading);
        }
        match found {
            Some(f) => {
                if reading.strength > groups[f].strength {
                    groups.set(f, copy);
                }
            },
            None => {
                groups.push(copy);
            },
        }
        proof {
            let index = match found {
                Some(f) => Some(f as int),
                None => None,
            };
            lemma_group_step(prefix, *reading, before, groups@, index);
        }
    }
    proof {
        assert(readings@.take(n as int) =~= readings@);
    }
    groups
}

/// The profile path saved for `ssid`, if any.
fn lookup_saved(saved: &Vec<SavedConnection>, ssid: &String) -> (path: Option<String>)
    ensures
        match (path, saved_path(saved@, ssid@)) {
            (Some(p), Some(expected)) => p@ == expected,
            (None, None) => true,
            _ => false,
        },
{
    let mut k = saved.len();
    proof {
        assert(saved@.take(k as int) =~= saved@);
    }
    while k > 0
        invariant
            k <= saved@.len(),
            saved_path(saved@, ssid@) == saved_path(saved@.take(k as int), ssid@),
        decreases k,
    {
        let ghost prefix = saved@.take(k as int);
        proof {
            assert(prefix.drop_last() =~= saved@.take(k - 1));
            assert(prefix.last() == saved@[k - 1]);
        }
        if saved[k - 1].ssid == *ssid {
            return Some(saved[k - 1].path.clone());
        }
        k = k - 1;
    }
    None
}

/// Menu rows for the deduplicated readings, in the same order.
fn summarize_all(
    readings: &Vec<RawApReading>,
    groups: Vec<RawApReading>,
    active_ssid: Option<&str>,
    saved: &Vec<SavedConnection>,
) -> (rows: Vec<AccessPointSummary>)
    requires
        grouped(readings@, groups@),
    ensures
        rows@.len() == groups@.len(),
        forall|i: int|
            0 <= i < rows@.len() ==> (#[trigger] strongest_reading(readings@, rows@[i].ssid@) matches Some(
                best,
            ) && summarizes(
                rows@[i],
                best,
                match active_ssid {
                    Some(a) => Some(a@),
                    None => None,
                },
                saved@,
            )),
        forall|i: int, j: int|
            0 <= i < rows@.len() && 0 <= j < rows@.len() && i != j ==> #[trigger] rows@[i].ssid@
                != #[trigger] rows@[j].ssid@,
        forall|k: int|
            0 <= k < readings@.len() ==> exists|i: int|
                0 <= i < rows@.len() && #[trigger] rows@[i].ssid@ == #[trigger] readings@[k].ssid@,
{
    let ghost active = match active_ssid {
        Some(a) => Some(a@),
        None => None,
    };
    let active_owned: Option<String> = match active_ssid {
        Some(a) => Some(a.to_owned()),
        None => None,
    };
    let mut rows: Vec<AccessPointSummary> = Vec::new();
    let n = groups.len();
    for i in 0..n
        invariant
            n == groups@.len(),
            rows@.len() == i,
            active == match active_owned {
                Some(a) => Some(a@),
                None => None,
            },
            forall|m: int|
                0 <= m < i ==> (#[trigger] rows@[m]).ssid@ == groups@[m].ssid@ && summarizes(
                    rows@[m],
                    groups@[m],
                    active,
                    saved@,
                ),
    {
        let g = &groups[i];
        let is_active = match &active_owned {
            Some(a) => *a == g.ssid,
            None => false,
        };
        let saved_connection = lookup_saved(saved, &g.ssid);
        rows.push(
            AccessPointSummary {
                ssid: g.ssid.clone(),
                strength: g.strength,
                security: g.security,
                is_active,
                saved_connection,
            },
        );
    }
    proof {
        assert forall|k: int| 0 <= k < readings@.len() implies exists|i: int|
            0 <= i < rows@.len() && #[trigger] rows@[i].ssid@ == #[trigger] readings@[k].ssid@ by {
            lemma_occurring_has_strongest(readings@, k);
            let j = choose|j: int| 0 <= j < groups@.len() && groups@[j].ssid@ == readings@[k].ssid@;
            assert(rows@[j].ssid@ == readings@[k].ssid@);
        }
        assert forall|i: int, j: int|
            0 <= i < rows@.len() && 0 <= j < rows@.len() && i != j implies #[trigger] rows@[i].ssid@
                != #[trigger] rows@[j].ssid@ by {
            assert(groups@[i].ssid@ != groups@[j].ssid@);
        }
        assert forall|i: int| 0 <= i < rows@.len() implies (#[trigger] strongest_reading(
            readings@,
            rows@[i].ssid@,
        ) matches Some(best) && summarizes(rows@[i], best, active, saved@)) by {
            assert(strongest_reading(readings@, groups@[i].ssid@) == Some(groups@[i]));
        }
    }
    rows
}

/// Rows in descending rank order.
pub open spec fn ranked(rows: Seq<AccessPointSummary>) -> bool {
    forall|i: int, j: int| 0 <= i < j < rows.len() ==> row_rank(#[trigger] rows[i]) >= row_rank(#[trigger] rows[j])
}

/// No two rows share an SSID.
pub open spec fn distinct_ssids(rows: Seq<AccessPointSummary>) -> bool {
    forall|i: int, j: int|
        0 <= i < rows.len() && 0 <= j < rows.len() && i != j ==> #[trigger] rows[i].ssid@
            != #[trigger] rows[j].ssid@
}

/// Inserting a row right before the first row of lower rank keeps the rows
/// ranked.
proof fn lemma_insert_ranked(rows: Seq<AccessPointSummary>, p: int, row: AccessPointSummary)
    requires
        ranked(rows),
        0 <= p <= rows.len(),
        forall|m: int| 0 <= m < p ==> row_rank(#[trigger] rows[m]) >= row_rank(row),
        p < rows.len() ==> row_rank(rows[p]) <= row_rank(row),
    ensures
        ranked(rows.insert(p, row)),
{
    let ins = rows.insert(p, row);
    assert forall|i: int, j: int| 0 <= i < j < ins.len() implies row_rank(#[trigger] ins[i]) >= row_rank(
        #[trigger] ins[j],
    ) by {
        if j < p {
            assert(ins[i] == rows[i] && ins[j] == rows[j]);
        } else if j == p {
            assert(ins[i] == rows[i]);
        } else if i == p {
            assert(ins[j] == rows[j - 1]);
            if j - 1 > p {
                assert(row_rank(rows[p]) >= row_rank(rows[j - 1]));
            }
        } else if i < p {
            assert(ins[i] == rows[i] && ins[j] == rows[j - 1]);
        } else {
            assert(ins[i] == rows[i - 1] && ins[j] == rows[j - 1]);
        }
    }
}

/// The placed rows are exactly the rows `all[from..]`.
#[verifier::opaque]
pub open spec fn placed(rows: Seq<AccessPointSummary>, all: Seq<AccessPointSummary>, from: int) -> bool {
    &&& forall|m: int|
        0 <= m < rows.len() ==> exists|k: int|
            from <= k < all.len() && #[trigger] rows[m] == #[trigger] all[k]
    &&& forall|k: int|
        from <= k < all.len() ==> exists|m: int|
            0 <= m < rows.len() && #[trigger] rows[m] == #[trigger] all[k]
}

/// Sorts rows by descending rank, keeping rows of equal rank in their
/// original order.
fn sort_by_rank(rows: Vec<AccessPointSummary>) -> (sorted: Vec<AccessPointSummary>)
    requires
        distinct_ssids(rows@),
    ensures
        sorted@.len() == rows@.len(),
        placed(sorted@, rows@, 0),
        ranked(sorted@),
        distinct_ssids(sorted@),
{
    let ghost all = rows@;
    let mut remaining = rows;
    let mut sorted: Vec<AccessPointSummary> = Vec::new();
    proof {
        reveal(placed);
        assert(remaining@ =~= all.take(all.len() as int));
    }
    while remaining.len() > 0
        invariant
            remaining@ == all.take(remaining@.len() as int),
            remaining@.len() <= all.len(),
            distinct_ssids(all),
            sorted@.len() + remaining@.len() == all.len(),
            placed(sorted@, all, remaining@.len() as int),
            ranked(sorted@),
            distinct_ssids(sorted@),
        decreases remaining@.len(),
    {
        let ghost before = sorted@;
        let ghost r = remaining@.len() - 1;
        let row = remaining.pop().unwrap();
        proof {
            assert(row == all[r]);
            assert(remaining@ =~= all.take(r));
        }
        let p = insertion_point(&sorted, &row);
        proof {
            lemma_insert_ranked(before, p as int, row);
            lemma_insert_placed(all, before, r, p as int);
        }
        sorted.insert(p, row);
    }
    sorted
}

/// Moving `all[r]` into the placed rows `all[r + 1..]` at any position
/// places `all[r..]`, with SSIDs still distinct.
proof fn lemma_insert_placed(
    all: Seq<AccessPointSummary>,
    before: Seq<AccessPointSummary>,
    r: int,
    p: int,
)
    requires
        0 <= r < all.len(),
        0 <= p <= before.len(),
        distinct_ssids(all),
        distinct_ssids(before),
        placed(before, all, r + 1),
    ensures
        placed(before.insert(p, all[r]), all, r),
        distinct_ssids(before.insert(p, all[r])),
{
    reveal(placed);
    insert_keeps_placed(all, before, r, p);
    insert_keeps_coverage(all, before, r, p);
    insert_keeps_distinct(all, before, r, p);
}

/// Moving `all[r]` into the placed rows keeps every placed row one of
/// `all[r..]`.
proof fn insert_keeps_placed(all: Seq<AccessPointSummary>, before: Seq<AccessPointSummary>, r: int, p: int)
    requires
        0 <= r < all.len(),
        0 <= p <= before.len(),
        placed(before, all, r + 1),
    ensures
        forall|m: int|
            0 <= m < before.insert(p, all[r]).len() ==> exists|k: int|
                r <= k < all.len() && #[trigger] before.insert(p, all[r])[m] == #[trigger] all[k],
{
    reveal(placed);
    let after = before.insert(p, all[r]);
    assert forall|m: int| 0 <= m < after.len() implies exists|k: int|
        r <= k < all.len() && #[trigger] after[m] == #[trigger] all[k] by {
        if m < p {
            assert(after[m] == before[m]);
            let k0 = choose|k: int| r + 1 <= k < all.len() && #[trigger] before[m] == #[trigger] all[k];
            assert(after[m] == all[k0]);
        } else if m == p {
            assert(after[m] == all[r]);
        } else {
            assert(after[m] == before[m - 1]);
            let k0 = choose|k: int| r + 1 <= k < all.len() && #[trigger] before[m - 1] == #[trigger] all[k];
            assert(after[m] == all[k0]);
        }
    }
}

/// Moving `all[r]` into the placed rows keeps every row of `all[r..]` placed.
proof fn insert_keeps_coverage(all: Seq<AccessPointSummary>, before: Seq<AccessPointSummary>, r: int, p: int)
    requires
        0 <= r < all.len(),
        0 <= p <= before.len(),
        placed(before, all, r + 1),
    ensures
        forall|k: int|
            r <= k < all.len() ==> exists|m: int|
                0 <= m < before.insert(p, all[r]).len() && #[trigger] before.insert(p, all[r])[m]
                    == #[trigger] all[k],
{
    reveal(placed);
    let after = before.insert(p, all[r]);
    assert forall|k: int| r <= k < all.len() implies exists|m: int|
        0 <= m < after.len() && #[trigger] after[m] == #[trigger] all[k] by {
        if k == r {
            assert(after[p] == all[k]);
        } else {
            let m0 = choose|m: int| 0 <= m < before.len() && #[trigger] before[m] == #[trigger] all[k];
            if m0 < p {
                assert(after[m0] == all[k]);
            } else {
                assert(after[m0 + 1] == all[k]);
            }
        }
    }
}

/// Moving `all[r]` into the placed rows keeps their SSIDs distinct.
#[verifier::spinoff_prover]
#[verifier::rlimit(30)]
proof fn insert_keeps_distinct(all: Seq<AccessPointSummary>, before: Seq<AccessPointSummary>, r: int, p: int)
    requires
        0 <= r < all.len(),
        0 <= p <= before.len(),
        distinct_ssids(all),
        distinct_ssids(before),
        placed(before, all, r + 1),
    ensures
        distinct_ssids(before.insert(p, all[r])),
{
    reveal(placed);
    let after = before.insert(p, all[r]);
    assert forall|i: int, j: int|
        0 <= i < after.len() && 0 <= j < after.len() && i != j implies #[trigger] after[i].ssid@
            != #[trigger] after[j].ssid@ by {
        if i != p && j != p {
            let bi = if i < p { i } else { i - 1 };
            let bj = if j < p { j } else { j - 1 };
            assert(after[i] == before[bi] && after[j] == before[bj]);
        } else {
            let o = if i == p { j } else { i };
            let bo = if o < p { o } else { o - 1 };
            assert(after[o] == before[bo]);
            let k = choose|k: int| r + 1 <= k < all.len() && #[trigger] before[bo] == #[trigger] all[k];
            assert(all[k].ssid@ != all[r].ssid@);
        }
    }
}

/// The position right before the first placed row that does not rank
/// higher than `row`, so that `row` goes before the rows of equal rank
/// (which came after it).
fn insertion_point(sorted: &Vec<AccessPointSummary>, row: &AccessPointSummary) -> (p: usize)
    ensures
        p <= sorted@.len(),
        forall|m: int| 0 <= m < p ==> row_rank(#[trigger] sorted@[m]) > row_rank(*row),
        p < sorted@.len() ==> row_rank(sorted@[p as int]) <= row_rank(*row),
{
    let rank = rank_of(row);
    let mut p: usize = 0;
    while p < sorted.len() && rank_of(&sorted[p]) > rank
        invariant
            p <= sorted@.len(),
            rank == row_rank(*row),
            forall|m: int| 0 <= m < p ==> row_rank(#[trigger] sorted@[m]) > rank,
        decreases sorted@.len() - p,
    {
        p = p + 1;
    }
    p
}

/// The sort rank of a row, as an integer.
fn rank_of(row: &AccessPointSummary) -> (rank: u16)
    ensures
        rank == row_rank(*row),
{
    (if row.is_active {
        256u16
    } else {
        0u16
    }) + row.strength as u16
}

} // verus!
