//! The report on one node, and the paging through the nodes of an instance.

use vstd::prelude::*;
use crate::connection::api_nodes::{find_node, node_position, ApiNodes, ApiNodesData};
use crate::connection::ws_get::{unique_ids, ApiWs, ApiWsDataHashMapValue};
use crate::connection::{escaped, msg_fixer};
use crate::db::Monitor;
use crate::text::{
    comes_before, decimal, lemma_text_le_transitive, lemma_text_lt_asymmetric,
    lemma_text_lt_total, push_char,
    push_decimal, push_signed_decimal, push_text, signed_decimal, text_le, text_lt, text_result,
};
use crate::ErrorString;

verus! {

/// How many seconds the `k`-th unit of a duration holds; the units run from
/// the year (of 365 days) over the month (of 30 days), the day, the hour and
/// the minute down to the second.
pub open spec fn unit_seconds(k: int) -> nat {
    if k == 0 {
        31536000
    } else if k == 1 {
        2592000
    } else if k == 2 {
        86400
    } else if k == 3 {
        3600
    } else if k == 4 {
        60
    } else {
        1
    }
}

/// The sign that names the `k`-th unit of a duration.
pub open spec fn unit_name(k: int) -> char {
    if k == 0 {
        '年'
    } else if k == 1 {
        '月'
    } else if k == 2 {
        '天'
    } else if k == 3 {
        '时'
    } else if k == 4 {
        '分'
    } else {
        '秒'
    }
}

/// The parts of a duration from the `k`-th unit downwards, largest unit
/// first, each as a count and the number of its unit. A unit takes as much of
/// the duration as it can hold; a unit that takes nothing has no part.
pub open spec fn duration_units(seconds: nat, k: int) -> Seq<(nat, int)>
    decreases 6 - k,
{
    if k < 0 || k >= 6 {
        Seq::empty()
    } else {
        let count = seconds / unit_seconds(k);
        let rest = duration_units(seconds % unit_seconds(k), k + 1);
        if count > 0 {
            seq![(count, k)] + rest
        } else {
            rest
        }
    }
}

/// One part of a duration as it is shown: the count, a space, the unit.
pub open spec fn unit_text(part: (nat, int)) -> Seq<char> {
    decimal(part.0) + seq![' ', unit_name(part.1)]
}

/// The parts of a duration as they are shown: in their order, with one space
/// between two of them.
pub open spec fn joined_units(parts: Seq<(nat, int)>) -> Seq<char>
    decreases parts.len(),
{
    if parts.len() == 0 {
        Seq::empty()
    } else if parts.len() == 1 {
        unit_text(parts[0])
    } else {
        joined_units(parts.drop_last()) + seq![' '] + unit_text(parts.last())
    }
}

/// How many seconds the parts hold together.
pub open spec fn units_total(parts: Seq<(nat, int)>) -> nat
    decreases parts.len(),
{
    if parts.len() == 0 {
        0
    } else {
        parts[0].0 * unit_seconds(parts[0].1) + units_total(parts.drop_first())
    }
}

/// A duration as it is shown.
pub open spec fn duration_text(seconds: nat) -> Seq<char> {
    if seconds == 0 {
        "0 seconds"@
    } else {
        joined_units(duration_units(seconds, 0))
    }
}

/// The parts from a unit downwards name that unit or smaller ones, in
/// strictly falling size, each with a count of at least one, and hold
/// together exactly the seconds they were made from.
pub proof fn lemma_duration_units_from(seconds: nat, k: int)
    requires
        0 <= k <= 6,
    ensures
        forall|i: int|
            0 <= i < duration_units(seconds, k).len() ==> {
                &&& (#[trigger] duration_units(seconds, k)[i]).0 >= 1
                &&& k <= duration_units(seconds, k)[i].1 < 6
            },
        forall|i: int, j: int|
            0 <= i < j < duration_units(seconds, k).len() ==> (#[trigger] duration_units(
                seconds,
                k,
            )[i]).1 < (#[trigger] duration_units(seconds, k)[j]).1,
        k < 6 ==> units_total(duration_units(seconds, k)) == seconds,
        k < 6 && seconds > 0 ==> duration_units(seconds, k).len() > 0,
    decreases 6 - k,
{
    if k < 6 {
        let unit = unit_seconds(k);
        let count = seconds / unit;
        let rest = duration_units(seconds % unit, k + 1);
        lemma_duration_units_from(seconds % unit, k + 1);
        assert(seconds == count * unit + seconds % unit) by (nonlinear_arith)
            requires
                count == seconds / unit,
                unit > 0,
        ;
        if k == 5 {
            assert(seconds % unit == 0);
            assert(rest.len() == 0);
        }
        assert(units_total(rest) == seconds % unit);
        if count > 0 {
            let all = seq![(count, k)] + rest;
            assert(all == duration_units(seconds, k));
            assert(all.drop_first() == rest);
            assert(all[0] == (count, k));
            assert(units_total(all) == count * unit + units_total(rest));
            assert forall|i: int, j: int| 0 <= i < j < all.len() implies (#[trigger] all[i]).1 < (
            #[trigger] all[j]).1 by {
                if i > 0 {
                    assert(all[i] == rest[i - 1]);
                }
                assert(all[j] == rest[j - 1]);
            }
        } else {
            assert(count * unit == 0) by (nonlinear_arith)
                requires
                    count == 0,
            ;
        }
    }
}

/// The units of a shown duration fall strictly in size, every count is at
/// least one, and the parts hold the duration exactly.
pub proof fn lemma_duration_units(seconds: nat)
    ensures
        forall|i: int|
            0 <= i < duration_units(seconds, 0).len() ==> (#[trigger] duration_units(
                seconds,
                0,
            )[i]).0 >= 1,
        forall|i: int, j: int|
            0 <= i < j < duration_units(seconds, 0).len() ==> unit_seconds(
                (#[trigger] duration_units(seconds, 0)[i]).1,
            ) > unit_seconds((#[trigger] duration_units(seconds, 0)[j]).1),
        units_total(duration_units(seconds, 0)) == seconds,
        seconds > 0 ==> duration_units(seconds, 0).len() > 0,
        duration_text(0) == "0 seconds"@,
{
    lemma_duration_units_from(seconds, 0);
    let parts = duration_units(seconds, 0);
    assert forall|i: int, j: int| 0 <= i < j < parts.len() implies unit_seconds(
        (#[trigger] parts[i]).1,
    ) > unit_seconds((#[trigger] parts[j]).1) by {
        assert(0 <= parts[i].1 < parts[j].1 < 6);
    }
}

/// The seconds that one unit of a duration holds.
fn unit_of(k: u8) -> (unit: u64)
    requires
        k < 6,
    ensures
        unit == unit_seconds(k as int),
{
    if k == 0 {
        31536000
    } else if k == 1 {
        2592000
    } else if k == 2 {
        86400
    } else if k == 3 {
        3600
    } else if k == 4 {
        60
    } else {
        1
    }
}

/// The sign of one unit of a duration.
fn name_of(k: u8) -> (name: char)
    requires
        k < 6,
    ensures
        name == unit_name(k as int),
{
    if k == 0 {
        '年'
    } else if k == 1 {
        '月'
    } else if k == 2 {
        '天'
    } else if k == 3 {
        '时'
    } else if k == 4 {
        '分'
    } else {
        '秒'
    }
}

/// Shows a duration of `seconds` in years of 365 days, months of 30 days,
/// days, hours, minutes and seconds: the units that are not zero, largest
/// first, as `count unit` with single spaces between. No time at all is shown
/// as `0 seconds`.
pub fn format_duration(seconds: u64) -> (text: String)
    ensures
        text@ == duration_text(seconds as nat),
{
    if seconds == 0 {
        return "0 seconds".to_owned();
    }
    let mut text = String::new();
    let mut rest = seconds;
    let mut started = false;
    let ghost mut done: Seq<(nat, int)> = Seq::empty();
    let mut k: u8 = 0;
    while k < 6
        invariant
            0 <= k <= 6,
            done + duration_units(rest as nat, k as int) == duration_units(seconds as nat, 0),
            text@ == joined_units(done),
            started == (done.len() > 0),
        decreases 6 - k,
    {
        let unit = unit_of(k);
        let count = rest / unit;
        let ghost tail = duration_units((rest % unit) as nat, k + 1);
        if count > 0 {
            if started {
                push_char(&mut text, ' ');
            }
            push_decimal(&mut text, count as u128);
            push_char(&mut text, ' ');
            push_char(&mut text, name_of(k));
            proof {
                let part = (count as nat, k as int);
                let more = done.push(part);
                assert(more.drop_last() == done);
                assert(text@ == joined_units(more));
                assert(more + tail == done + (seq![part] + tail));
                done = more;
            }
            started = true;
        }
        rest = rest % unit;
        k = k + 1;
    }
    assert(done + Seq::<(nat, int)>::empty() == done);
    text
}

/// The metrics with `entry` put in behind every entry whose identifier does
/// not stand after its own.
pub open spec fn placed(
    sorted: Seq<(String, ApiWsDataHashMapValue)>,
    entry: (String, ApiWsDataHashMapValue),
) -> Seq<(String, ApiWsDataHashMapValue)>
    decreases sorted.len(),
{
    if sorted.len() > 0 && text_lt(entry.0@, sorted.last().0@) {
        placed(sorted.drop_last(), entry).push(sorted.last())
    } else {
        sorted.push(entry)
    }
}

/// The metrics in the order of their node identifiers; entries with one
/// identifier keep the order they came in.
pub open spec fn sorted_by_id(entries: Seq<(String, ApiWsDataHashMapValue)>) -> Seq<
    (String, ApiWsDataHashMapValue),
>
    decreases entries.len(),
{
    if entries.len() == 0 {
        Seq::empty()
    } else {
        placed(sorted_by_id(entries.drop_last()), entries.last())
    }
}

/// Whether no entry stands before one whose identifier comes earlier in the
/// dictionary order.
pub open spec fn ordered_by_id(entries: Seq<(String, ApiWsDataHashMapValue)>) -> bool {
    forall|i: int, j: int|
        0 <= i < j < entries.len() ==> text_le((#[trigger] entries[i]).0@, (#[trigger] entries[j]).0@)
}

/// Putting an entry in place keeps every entry, adds that one, and keeps
/// the order of the identifiers.
pub proof fn lemma_placed(
    sorted: Seq<(String, ApiWsDataHashMapValue)>,
    entry: (String, ApiWsDataHashMapValue),
)
    requires
        ordered_by_id(sorted),
    ensures
        ordered_by_id(placed(sorted, entry)),
        placed(sorted, entry).len() == sorted.len() + 1,
        placed(sorted, entry).to_multiset() == sorted.to_multiset().insert(entry),
        forall|i: int|
            0 <= i < placed(sorted, entry).len() ==> (#[trigger] placed(sorted, entry)[i]) == entry
                || sorted.contains(placed(sorted, entry)[i]),
    decreases sorted.len(),
{
    broadcast use vstd::seq_lib::group_to_multiset_ensures;

    let out = placed(sorted, entry);
    if sorted.len() > 0 && text_lt(entry.0@, sorted.last().0@) {
        let front = sorted.drop_last();
        let last = sorted.last();
        let inner = placed(front, entry);
        assert(ordered_by_id(front)) by {
            assert forall|i: int, j: int| 0 <= i < j < front.len() implies text_le(
                (#[trigger] front[i]).0@,
                (#[trigger] front[j]).0@,
            ) by {
                assert(front[i] == sorted[i] && front[j] == sorted[j]);
            }
        }
        lemma_placed(front, entry);
        lemma_text_lt_asymmetric(entry.0@, last.0@);
        assert(out == inner.push(last));
        assert forall|i: int, j: int| 0 <= i < j < out.len() implies text_le(
            (#[trigger] out[i]).0@,
            (#[trigger] out[j]).0@,
        ) by {
            if j < inner.len() {
                assert(out[i] == inner[i] && out[j] == inner[j]);
            } else {
                assert(out[i] == inner[i]);
                if inner[i] != entry {
                    let k = choose|k: int| 0 <= k < front.len() && front[k] == inner[i];
                    assert(sorted[k] == inner[i]);
                    assert(sorted[sorted.len() - 1] == last);
                }
            }
        }
        assert forall|i: int| 0 <= i < out.len() implies (#[trigger] out[i]) == entry
            || sorted.contains(out[i]) by {
            if i < inner.len() {
                assert(out[i] == inner[i]);
                if inner[i] != entry {
                    let k = choose|k: int| 0 <= k < front.len() && front[k] == inner[i];
                    assert(sorted[k] == out[i]);
                }
            } else {
                assert(sorted[sorted.len() - 1] == out[i]);
            }
        }
        assert(sorted == front.push(last));
        assert(out.to_multiset() == sorted.to_multiset().insert(entry));
    } else {
        assert(out == sorted.push(entry));
        assert forall|i: int, j: int| 0 <= i < j < out.len() implies text_le(
            (#[trigger] out[i]).0@,
            (#[trigger] out[j]).0@,
        ) by {
            if j < sorted.len() {
                assert(out[i] == sorted[i] && out[j] == sorted[j]);
            } else {
                assert(out[i] == sorted[i]);
                let last = sorted[sorted.len() - 1];
                if i < sorted.len() - 1 {
                    assert(text_le(sorted[i].0@, last.0@));
                } else if text_lt(last.0@, last.0@) {
                    lemma_text_lt_asymmetric(last.0@, last.0@);
                }
                lemma_text_le_transitive(sorted[i].0@, sorted.last().0@, entry.0@);
            }
        }
        assert forall|i: int| 0 <= i < out.len() implies (#[trigger] out[i]) == entry
            || sorted.contains(out[i]) by {
            if i < sorted.len() {
                assert(sorted[i] == out[i]);
            }
        }
    }
}

/// The sorted metrics hold exactly the entries that came in, in the order of
/// their identifiers.
pub proof fn lemma_sorted_by_id(entries: Seq<(String, ApiWsDataHashMapValue)>)
    ensures
        ordered_by_id(sorted_by_id(entries)),
        sorted_by_id(entries).len() == entries.len(),
        sorted_by_id(entries).to_multiset() == entries.to_multiset(),
    decreases entries.len(),
{
    broadcast use vstd::seq_lib::group_to_multiset_ensures;

    if entries.len() > 0 {
        lemma_sorted_by_id(entries.drop_last());
        lemma_placed(sorted_by_id(entries.drop_last()), entries.last());
        assert(entries == entries.drop_last().push(entries.last()));
    } else {
        assert(entries == Seq::<(String, ApiWsDataHashMapValue)>::empty());
    }
}

/// Whether every entry stands before all whose identifiers come later in
/// the dictionary order, and no identifier occurs twice.
pub open spec fn ascending_by_id(entries: Seq<(String, ApiWsDataHashMapValue)>) -> bool {
    forall|i: int, j: int|
        0 <= i < j < entries.len() ==> text_lt((#[trigger] entries[i]).0@, (#[trigger] entries[j]).0@)
}

/// Putting in place an entry whose identifier is new keeps every identifier
/// single.
pub proof fn lemma_placed_unique(
    sorted: Seq<(String, ApiWsDataHashMapValue)>,
    entry: (String, ApiWsDataHashMapValue),
)
    requires
        ordered_by_id(sorted),
        unique_ids(sorted),
        forall|k: int| 0 <= k < sorted.len() ==> (#[trigger] sorted[k]).0@ != entry.0@,
    ensures
        unique_ids(placed(sorted, entry)),
    decreases sorted.len(),
{
    let out = placed(sorted, entry);
    if sorted.len() > 0 && text_lt(entry.0@, sorted.last().0@) {
        let front = sorted.drop_last();
        let last = sorted.last();
        let inner = placed(front, entry);
        assert forall|i: int, j: int| 0 <= i < j < front.len() implies text_le(
            (#[trigger] front[i]).0@,
            (#[trigger] front[j]).0@,
        ) && front[i].0@ != front[j].0@ by {
            assert(front[i] == sorted[i] && front[j] == sorted[j]);
        }
        assert forall|k: int| 0 <= k < front.len() implies (#[trigger] front[k]).0@ != entry.0@ by {
            assert(front[k] == sorted[k]);
        }
        lemma_placed_unique(front, entry);
        lemma_placed(front, entry);
        assert(out == inner.push(last));
        assert(sorted[sorted.len() - 1] == last);
        assert forall|i: int, j: int| 0 <= i < j < out.len() implies (#[trigger] out[i]).0@ != (
        #[trigger] out[j]).0@ by {
            if j < inner.len() {
                assert(out[i] == inner[i] && out[j] == inner[j]);
            } else {
                assert(out[i] == inner[i]);
                if inner[i] != entry {
                    let k = choose|k: int| 0 <= k < front.len() && front[k] == inner[i];
                    assert(sorted[k] == inner[i]);
                }
            }
        }
    } else {
        assert(out == sorted.push(entry));
        assert forall|i: int, j: int| 0 <= i < j < out.len() implies (#[trigger] out[i]).0@ != (
        #[trigger] out[j]).0@ by {
            assert(out[i] == sorted[i]);
            if j < sorted.len() {
                assert(out[j] == sorted[j]);
            }
        }
    }
}

/// Where every identifier occurs once, the sorted metrics stand in
/// strictly ascending order of their identifiers.
pub proof fn lemma_sorted_unique(entries: Seq<(String, ApiWsDataHashMapValue)>)
    requires
        unique_ids(entries),
    ensures
        unique_ids(sorted_by_id(entries)),
        ascending_by_id(sorted_by_id(entries)),
    decreases entries.len(),
{
    let out = sorted_by_id(entries);
    if entries.len() > 0 {
        let front = entries.drop_last();
        let last = entries.last();
        let before = sorted_by_id(front);
        assert forall|i: int, j: int| 0 <= i < j < front.len() implies (#[trigger] front[i]).0@ != (
        #[trigger] front[j]).0@ by {
            assert(front[i] == entries[i] && front[j] == entries[j]);
        }
        lemma_sorted_unique(front);
        lemma_sorted_by_id(front);
        assert forall|k: int| 0 <= k < before.len() implies (#[trigger] before[k]).0@ != last.0@ by {
            before.to_multiset_ensures();
            front.to_multiset_ensures();
            assert(before.contains(before[k]));
            assert(before.to_multiset().count(before[k]) > 0);
            assert(front.to_multiset().count(before[k]) > 0);
            assert(front.contains(before[k]));
            let m = choose|m: int| 0 <= m < front.len() && front[m] == before[k];
            assert(entries[m] == before[k]);
            assert(entries[entries.len() - 1] == last);
        }
        lemma_placed_unique(before, last);
        lemma_placed(before, last);
    }
    assert forall|i: int, j: int| 0 <= i < j < out.len() implies text_lt(
        (#[trigger] out[i]).0@,
        (#[trigger] out[j]).0@,
    ) by {
        lemma_sorted_by_id(entries);
        assert(text_le(out[i].0@, out[j].0@));
        lemma_text_lt_total(out[i].0@, out[j].0@);
    }
}

/// Two rows of metrics in strictly ascending order that hold the same
/// entries are the same row.
pub proof fn lemma_ascending_is_determined(
    s: Seq<(String, ApiWsDataHashMapValue)>,
    t: Seq<(String, ApiWsDataHashMapValue)>,
)
    requires
        ascending_by_id(s),
        ascending_by_id(t),
        s.to_multiset() == t.to_multiset(),
    ensures
        s == t,
    decreases s.len(),
{
    s.to_multiset_ensures();
    t.to_multiset_ensures();
    assert(s.len() == t.len());
    if s.len() == 0 {
        assert(s =~= t);
    } else {
        let n = s.len() as int;
        let x = s[n - 1];
        let y = t[n - 1];
        assert(s.contains(x));
        assert(s.to_multiset().count(x) > 0);
        assert(t.to_multiset().count(x) > 0);
        assert(t.contains(x));
        assert(t.contains(y));
        assert(t.to_multiset().count(y) > 0);
        assert(s.to_multiset().count(y) > 0);
        assert(s.contains(y));
        let k = choose|k: int| 0 <= k < t.len() && t[k] == x;
        let m = choose|m: int| 0 <= m < s.len() && s[m] == y;
        if k < n - 1 {
            assert(text_lt(t[k].0@, t[n - 1].0@));
            if m < n - 1 {
                assert(text_lt(s[m].0@, s[n - 1].0@));
            }
            lemma_text_lt_asymmetric(x.0@, y.0@);
            assert(false);
        }
        assert(x == y);
        let s0 = s.drop_last();
        let t0 = t.drop_last();
        assert(s0 =~= s.remove(n - 1));
        assert(t0 =~= t.remove(n - 1));
        assert(s0.to_multiset() == t0.to_multiset());
        assert forall|i: int, j: int| 0 <= i < j < s0.len() implies text_lt(
            (#[trigger] s0[i]).0@,
            (#[trigger] s0[j]).0@,
        ) by {
            assert(s0[i] == s[i] && s0[j] == s[j]);
        }
        assert forall|i: int, j: int| 0 <= i < j < t0.len() implies text_lt(
            (#[trigger] t0[i]).0@,
            (#[trigger] t0[j]).0@,
        ) by {
            assert(t0[i] == t[i] && t0[j] == t[j]);
        }
        lemma_ascending_is_determined(s0, t0);
        assert(s =~= s0.push(x));
        assert(t =~= t0.push(y));
    }
}

/// The order in which the entries of a snapshot arrive makes no difference
/// to the sorted metrics, where every identifier occurs once.
pub proof fn lemma_sorting_ignores_arrival_order(
    a: Seq<(String, ApiWsDataHashMapValue)>,
    b: Seq<(String, ApiWsDataHashMapValue)>,
)
    requires
        a.to_multiset() == b.to_multiset(),
        unique_ids(a),
        unique_ids(b),
    ensures
        sorted_by_id(a) == sorted_by_id(b),
{
    lemma_sorted_by_id(a);
    lemma_sorted_by_id(b);
    lemma_sorted_unique(a);
    lemma_sorted_unique(b);
    lemma_ascending_is_determined(sorted_by_id(a), sorted_by_id(b));
}

/// Puts the metrics of a snapshot in the order of their node identifiers,
/// by the dictionary order of the characters. This is the order in which
/// the nodes are counted wherever a node is named by its number. Where
/// every identifier occurs once the order is strictly ascending, and so the
/// same in whatever order the entries came.
pub fn sort_ws_data(ws_data: ApiWs) -> (sorted: Vec<(String, ApiWsDataHashMapValue)>)
    ensures
        sorted@ == sorted_by_id(ws_data.data.data@),
        ordered_by_id(sorted@),
        sorted@.len() == ws_data.data.data@.len(),
        sorted@.to_multiset() == ws_data.data.data@.to_multiset(),
        ws_data.data.wf() ==> ascending_by_id(sorted@),
{
    let mut sorted: Vec<(String, ApiWsDataHashMapValue)> = Vec::new();
    let entries = ws_data.data.data;
    for entry in it: entries
        invariant
            it.seq() == entries@,
            sorted@ == sorted_by_id(entries@.take(it.index())),
    {
        let mut at = sorted.len();
        assert(sorted@.take(at as int) == sorted@);
        assert(placed(sorted@, entry) + sorted@.skip(at as int) == placed(sorted@, entry));
        while at > 0 && comes_before(entry.0.as_str(), sorted[at - 1].0.as_str())
            invariant
                at <= sorted.len(),
                placed(sorted@, entry) == placed(sorted@.take(at as int), entry) + sorted@.skip(
                    at as int,
                ),
            decreases at,
        {
            proof {
                let front = sorted@.take(at as int);
                assert(front.last() == sorted@[at - 1]);
                assert(front.drop_last() == sorted@.take(at - 1));
                assert(placed(front.drop_last(), entry).push(front.last()) + sorted@.skip(at as int)
                    == placed(front.drop_last(), entry) + sorted@.skip(at - 1));
            }
            at -= 1;
        }
        proof {
            let front = sorted@.take(at as int);
            assert(at > 0 ==> front.last() == sorted@[at - 1]);
            assert(placed(front, entry) == front.push(entry));
            assert(front.push(entry) + sorted@.skip(at as int) == sorted@.insert(at as int, entry));
            let sofar = entries@.take(it.index() + 1);
            assert(sofar.drop_last() == entries@.take(it.index()));
            assert(sofar.last() == entry);
        }
        sorted.insert(at, entry);
    }
    proof {
        assert(entries@.take(entries@.len() as int) == entries@);
        lemma_sorted_by_id(entries@);
        if unique_ids(entries@) {
            lemma_sorted_unique(entries@);
        }
    }
    sorted
}

/// The place in the sorted metrics that a node number names: the numbers 0
/// and 1 both name the first place, a larger number the place one below it.
pub open spec fn place_of(index: int) -> int {
    if index <= 1 {
        0
    } else {
        index - 1
    }
}

/// The entry that a node number names among the sorted metrics, if the
/// number is not negative and there are that many entries.
pub open spec fn entry_at(sorted: Seq<(String, ApiWsDataHashMapValue)>, index: int) -> Option<
    (String, ApiWsDataHashMapValue),
> {
    if 0 <= index && place_of(index) < sorted.len() {
        Some(sorted[place_of(index)])
    } else {
        None
    }
}

/// The node numbers 0 and 1 name the same entry; a number from 2 on names
/// the entry one place below it in the sorted metrics; a number beyond their
/// length names none.
pub proof fn lemma_entry_at(sorted: Seq<(String, ApiWsDataHashMapValue)>, index: int)
    ensures
        entry_at(sorted, 0) == entry_at(sorted, 1),
        2 <= index <= sorted.len() ==> entry_at(sorted, index) == Some(sorted[index - 1]),
        index > sorted.len() && index > 0 ==> entry_at(sorted, index) is None,
{
}

/// Picks from the metrics of a snapshot the node that a node number names,
/// the nodes counted in the order of their identifiers. A snapshot that
/// could not be read is reported as a failure to reach the instance.
pub fn ws_single_server_by_index(ws_data: Result<ApiWs, ErrorString>, index: i32) -> (found: Result<
    Option<(String, ApiWsDataHashMapValue)>,
    ErrorString,
>)
    ensures
        match ws_data {
            Ok(snapshot) => found == Ok::<Option<(String, ApiWsDataHashMapValue)>, ErrorString>(
                entry_at(sorted_by_id(snapshot.data.data@), index as int),
            ),
            Err(e) => found matches Err(text) && text@ == "无法连接到 Komari Websocket 服务器: "@ + e@,
        },
{
    match ws_data {
        Ok(snapshot) => {
            let mut sorted = sort_ws_data(snapshot);
            if index < 0 {
                return Ok(None);
            }
            let place: usize = if index <= 1 {
                0
            } else {
                (index - 1) as usize
            };
            if place < sorted.len() {
                Ok(Some(sorted.remove(place)))
            } else {
                Ok(None)
            }
        },
        Err(e) => {
            let mut text = "无法连接到 Komari Websocket 服务器: ".to_owned();
            push_text(&mut text, e.as_str());
            Err(text)
        },
    }
}

/// One button below a message.
#[derive(Debug)]
pub enum InlineButton {
    /// A button that sends `data` back when it is pressed.
    Callback { text: String, data: String },
    /// A label that opens `url`.
    Link { text: String, url: String },
}

/// The buttons below a message, row by row.
#[derive(Debug)]
pub struct InlineKeyboard {
    pub rows: Vec<Vec<InlineButton>>,
}

/// A button as its texts.
pub enum ButtonLayout {
    Callback { text: Seq<char>, data: Seq<char> },
    Link { text: Seq<char>, url: Seq<char> },
}

impl DeepView for InlineButton {
    type V = ButtonLayout;

    open spec fn deep_view(&self) -> ButtonLayout {
        match self {
            InlineButton::Callback { text, data } => ButtonLayout::Callback {
                text: text@,
                data: data@,
            },
            InlineButton::Link { text, url } => ButtonLayout::Link { text: text@, url: url@ },
        }
    }
}

/// What a button sends back: the user, a hyphen, the node number.
pub open spec fn button_data(telegram_id: int, index: int) -> Seq<char> {
    signed_decimal(telegram_id) + seq!['-'] + signed_decimal(index)
}

/// The node number that the button to the left leads to.
pub open spec fn previous_index(now_id: int) -> int {
    if now_id == 0 || now_id == 1 {
        0
    } else {
        now_id - 1
    }
}

/// The node number that the button to the right leads to.
pub open spec fn next_index(now_id: int) -> int {
    if now_id == 0 || now_id == 1 {
        2
    } else {
        now_id + 1
    }
}

/// The row that leads through the nodes: a button to the left where a
/// node stands there, the place among all nodes, a button to the right
/// where a node stands there.
pub open spec fn paging_row(now_id: int, telegram_id: int, max_server: int) -> Seq<ButtonLayout> {
    let left = if previous_index(now_id) > 0 {
        seq![
            ButtonLayout::Callback {
                text: "<-"@,
                data: button_data(telegram_id, previous_index(now_id)),
            },
        ]
    } else {
        Seq::empty()
    };
    let middle = seq![
        ButtonLayout::Link {
            text: signed_decimal(now_id) + " / "@ + decimal(max_server as nat),
            url: "https://t.me/komaritgbot"@,
        },
    ];
    let right = if next_index(now_id) <= max_server {
        seq![
            ButtonLayout::Callback {
                text: "->"@,
                data: button_data(telegram_id, next_index(now_id)),
            },
        ]
    } else {
        Seq::empty()
    };
    left + middle + right
}

/// The buttons below the report on the node `now_id`: the paging row, and
/// below it a button that asks for the same node again.
pub open spec fn single_keyboard(now_id: int, telegram_id: int, max_server: int) -> Seq<
    Seq<ButtonLayout>,
> {
    seq![
        paging_row(now_id, telegram_id, max_server),
        seq![ButtonLayout::Callback { text: "Refresh"@, data: button_data(telegram_id, now_id) }],
    ]
}

/// What a button sends back for a user and a node number.
fn callback_data(telegram_id: i64, index: i64) -> (data: String)
    ensures
        data@ == button_data(telegram_id as int, index as int),
{
    let mut data = String::new();
    push_signed_decimal(&mut data, telegram_id as i128);
    push_char(&mut data, '-');
    push_signed_decimal(&mut data, index as i128);
    assert(data@ == button_data(telegram_id as int, index as int));
    data
}

/// Builds the buttons below the report on the node `now_id` for the user
/// `telegram_id`, where the profile counts `max_server` nodes.
pub fn single_keyboard_for(now_id: i32, telegram_id: i64, max_server: u32) -> (keyboard:
    InlineKeyboard)
    ensures
        keyboard.rows.deep_view() == single_keyboard(
            now_id as int,
            telegram_id as int,
            max_server as int,
        ),
{
    let now: i64 = now_id as i64;
    let (previous, next): (i64, i64) = if now_id == 0 || now_id == 1 {
        (0, 2)
    } else {
        (now - 1, now + 1)
    };
    let mut first_row: Vec<InlineButton> = Vec::new();
    if previous > 0 {
        first_row.push(
            InlineButton::Callback {
                text: "<-".to_owned(),
                data: callback_data(telegram_id, previous),
            },
        );
    }
    let mut place = String::new();
    push_signed_decimal(&mut place, now as i128);
    push_text(&mut place, " / ");
    push_decimal(&mut place, max_server as u128);
    first_row.push(InlineButton::Link { text: place, url: "https://t.me/komaritgbot".to_owned() });
    if next <= max_server as i64 {
        first_row.push(
            InlineButton::Callback { text: "->".to_owned(), data: callback_data(telegram_id, next) },
        );
    }
    assert(first_row.deep_view() == paging_row(now_id as int, telegram_id as int, max_server as int));
    let mut second_row: Vec<InlineButton> = Vec::new();
    second_row.push(
        InlineButton::Callback { text: "Refresh".to_owned(), data: callback_data(telegram_id, now) },
    );
    assert(second_row.deep_view() == seq![
        ButtonLayout::Callback {
            text: "Refresh"@,
            data: button_data(telegram_id as int, now_id as int),
        },
    ]);
    let mut rows: Vec<Vec<InlineButton>> = Vec::new();
    rows.push(first_row);
    rows.push(second_row);
    assert(rows.deep_view() == single_keyboard(
        now_id as int,
        telegram_id as int,
        max_server as int,
    ));
    InlineKeyboard { rows }
}

/// Builds the buttons below the report on the node `now_id` for the user
/// `telegram_id`, from the profile of that user, which counts the nodes: a
/// button to the node before where its number is above 0, the place among
/// all nodes, a button to the node after where its number is not beyond the
/// count, and below them a button that asks for the same node again. From
/// the numbers 0 and 1 the buttons lead to 0 and 2. A user without a
/// profile gets no buttons but the advice to connect.
pub fn make_keyboard_for_single(
    now_id: i32,
    telegram_id: i64,
    monitor: Result<Option<Monitor>, ErrorString>,
) -> (keyboard: Result<InlineKeyboard, ErrorString>)
    ensures
        match monitor {
            Err(e) => keyboard matches Err(text) && text@ == e@,
            Ok(None) => keyboard matches Err(text) && text@
                == "服务器未连接，请先使用 /connect [http url] [ws url] 添加服务器"@,
            Ok(Some(profile)) => keyboard matches Ok(keys) && keys.rows.deep_view()
                == single_keyboard(
                now_id as int,
                telegram_id as int,
                profile.total_server_count as int,
            ),
        },
{
    match monitor {
        Err(e) => Err(e),
        Ok(None) => Err("服务器未连接，请先使用 /connect [http url] [ws url] 添加服务器".to_owned()),
        Ok(Some(profile)) => Ok(
            single_keyboard_for(now_id, telegram_id, profile.total_server_count),
        ),
    }
}

/// The measurements of one node as they are shown, each a numeral with two
/// decimal places: the fractions that the node reports, and what follows
/// from its byte counts by division.
#[derive(Debug)]
pub struct NodeFigures {
    /// The usage of the processor, in percent.
    pub cpu_usage: String,
    /// Memory in use, in mebibytes.
    pub ram_used: String,
    /// Memory in all, in mebibytes.
    pub ram_total: String,
    /// Memory in use, in percent of all.
    pub ram_usage: String,
    /// Swap space in use, in mebibytes.
    pub swap_used: String,
    /// Swap space in all, in mebibytes.
    pub swap_total: String,
    /// Swap space in use, in percent of all.
    pub swap_usage: String,
    /// Disk space in use, in gibibytes.
    pub disk_used: String,
    /// Disk space in all, in gibibytes.
    pub disk_total: String,
    /// Disk space in use, in percent of all.
    pub disk_usage: String,
    pub load1: String,
    pub load5: String,
    pub load15: String,
    /// All that came in since the node started, in gibibytes.
    pub total_net_down: String,
    /// All that went out since the node started, in gibibytes.
    pub total_net_up: String,
    /// What comes in at present, in megabits per second.
    pub net_down: String,
    /// What goes out at present, in megabits per second.
    pub net_up: String,
}

/// A text with the line on the graphics processor behind it, where the node
/// has one.
pub open spec fn with_gpu(text: Seq<char>, gpu_name: Seq<char>) -> Seq<char> {
    if gpu_name.len() == 0 {
        text
    } else {
        text + "\nGPU: `"@ + gpu_name + "`"@
    }
}

/// A text with the line on the last update behind it, where the time of one
/// is known.
pub open spec fn with_update(text: Seq<char>, updated_at: Option<String>) -> Seq<char> {
    match updated_at {
        Some(time) => text + "\n\nUPDATE AT: `"@ + time@ + "`"@,
        None => text,
    }
}

/// The first part of the report on a node: where it belongs and what it is
/// made of.
pub open spec fn report_head(title: Seq<char>, node: ApiNodesData, uptime: nat) -> Seq<char> {
    with_gpu(
        title + " | "@ + node.region@ + " | "@ + node.name@ + "\n\nCPU: `"@ + node.cpu_name@
            + "` @ `"@ + signed_decimal(node.cpu_cores as int) + " Cores`"@,
        node.gpu_name@,
    ) + "\nARCH: `"@ + node.arch@ + "`\nVIRT: `"@ + node.virtualization@ + "`\nOS: `"@ + node.os@
        + "`\nKERN: `"@ + node.kernel_version@ + "`\nUPTIME: `"@ + duration_text(uptime) + "`"@
}

/// A report with the part on what is in use behind it.
pub open spec fn with_usage(text: Seq<char>, figures: NodeFigures, process: nat) -> Seq<char> {
    text + "\n\nCPU: `"@ + figures.cpu_usage@ + "%`\nRAM: `"@ + figures.ram_used@ + "` / `"@
        + figures.ram_total@ + " MB` `"@ + figures.ram_usage@ + "%`\nSWAP: `"@ + figures.swap_used@
        + "` / `"@ + figures.swap_total@ + " MB` `"@ + figures.swap_usage@ + "%`\nDISK: `"@
        + figures.disk_used@ + "` / `"@ + figures.disk_total@ + " GB` `"@ + figures.disk_usage@
        + "%`\n\nLOAD: `"@ + figures.load1@ + "` / `"@ + figures.load5@ + "` / `"@ + figures.load15@
        + "`\nPROC: `"@ + decimal(process) + "`"@
}

/// A report with the part on the network behind it. The line `UP`
/// carries the rate at which data comes in and the line `DOWN` the rate at
/// which it goes out: that is how the report has always read, and it is
/// kept so.
pub open spec fn with_traffic(text: Seq<char>, figures: NodeFigures, tcp: nat, udp: nat) -> Seq<
    char,
> {
    text + "\n\nNET: `"@ + figures.total_net_down@ + " GB` / `"@ + figures.total_net_up@
        + " GB`\nUP: `"@ + figures.net_down@ + " Mbps`\nDOWN: `"@ + figures.net_up@
        + " Mbps`\nCONN: `"@ + decimal(tcp) + " TCP` / `"@ + decimal(udp) + " UDP`"@
}

/// The report on one node, before it is escaped.
pub open spec fn node_report(
    title: Seq<char>,
    node: ApiNodesData,
    ws_data: ApiWsDataHashMapValue,
    figures: NodeFigures,
) -> Seq<char> {
    with_update(
        with_traffic(
            with_usage(
                report_head(title, node, ws_data.uptime as nat),
                figures,
                ws_data.process as nat,
            ),
            figures,
            ws_data.connections.tcp as nat,
            ws_data.connections.udp as nat,
        ),
        node.updated_at,
    )
}

/// What a request for the report on one node comes to, from what was read:
/// the profile of the user, the inventory, and the node that the number
/// names. A failure of the profile comes first, then one of the inventory,
/// then one of the metrics.
pub open spec fn single_report(
    monitor: Result<Option<Monitor>, ErrorString>,
    nodes: Result<ApiNodes, ErrorString>,
    server: Result<Option<(String, ApiWsDataHashMapValue)>, ErrorString>,
    figures: NodeFigures,
) -> Result<Seq<char>, Seq<char>> {
    match monitor {
        Err(e) => Err(e@),
        Ok(None) => Err("服务器未连接，请先使用 /connect [http url] [ws url] 连接"@),
        Ok(Some(profile)) => match nodes {
            Err(e) => Err(e@),
            Ok(inventory) => match server {
                Err(e) => Err(e@),
                Ok(None) => Err("找不到该序号的服务器"@),
                Ok(Some(entry)) => {
                    let at = node_position(inventory.data@, entry.0@);
                    if at < inventory.data@.len() {
                        Ok(
                            escaped(
                                node_report(
                                    profile.site_name@,
                                    inventory.data@[at],
                                    entry.1,
                                    figures,
                                ),
                            ),
                        )
                    } else {
                        Err("找不到该序号的服务器"@)
                    }
                },
            },
        },
    }
}

/// Writes the report on one node.
fn write_node_report(
    title: &str,
    node: &ApiNodesData,
    ws_data: &ApiWsDataHashMapValue,
    figures: &NodeFigures,
) -> (text: String)
    ensures
        text@ == node_report(title@, *node, *ws_data, *figures),
{
    let mut text = title.to_owned();
    push_text(&mut text, " | ");
    push_text(&mut text, node.region.as_str());
    push_text(&mut text, " | ");
    push_text(&mut text, node.name.as_str());
    push_text(&mut text, "\n\nCPU: `");
    push_text(&mut text, node.cpu_name.as_str());
    push_text(&mut text, "` @ `");
    push_signed_decimal(&mut text, node.cpu_cores as i128);
    push_text(&mut text, " Cores`");
    if !node.gpu_name.as_str().is_empty() {
        push_text(&mut text, "\nGPU: `");
        push_text(&mut text, node.gpu_name.as_str());
        push_text(&mut text, "`");
    }
    push_text(&mut text, "\nARCH: `");
    push_text(&mut text, node.arch.as_str());
    push_text(&mut text, "`\nVIRT: `");
    push_text(&mut text, node.virtualization.as_str());
    push_text(&mut text, "`\nOS: `");
    push_text(&mut text, node.os.as_str());
    push_text(&mut text, "`\nKERN: `");
    push_text(&mut text, node.kernel_version.as_str());
    push_text(&mut text, "`\nUPTIME: `");
    let uptime = format_duration(ws_data.uptime);
    push_text(&mut text, uptime.as_str());
    push_text(&mut text, "`");
    assert(text@ == report_head(title@, *node, ws_data.uptime as nat));
    let ghost head = text@;
    push_text(&mut text, "\n\nCPU: `");
    push_text(&mut text, figures.cpu_usage.as_str());
    push_text(&mut text, "%`\nRAM: `");
    push_text(&mut text, figures.ram_used.as_str());
    push_text(&mut text, "` / `");
    push_text(&mut text, figures.ram_total.as_str());
    push_text(&mut text, " MB` `");
    push_text(&mut text, figures.ram_usage.as_str());
    push_text(&mut text, "%`\nSWAP: `");
    push_text(&mut text, figures.swap_used.as_str());
    push_text(&mut text, "` / `");
    push_text(&mut text, figures.swap_total.as_str());
    push_text(&mut text, " MB` `");
    push_text(&mut text, figures.swap_usage.as_str());
    push_text(&mut text, "%`\nDISK: `");
    push_text(&mut text, figures.disk_used.as_str());
    push_text(&mut text, "` / `");
    push_text(&mut text, figures.disk_total.as_str());
    push_text(&mut text, " GB` `");
    push_text(&mut text, figures.disk_usage.as_str());
    push_text(&mut text, "%`\n\nLOAD: `");
    push_text(&mut text, figures.load1.as_str());
    push_text(&mut text, "` / `");
    push_text(&mut text, figures.load5.as_str());
    push_text(&mut text, "` / `");
    push_text(&mut text, figures.load15.as_str());
    push_text(&mut text, "`\nPROC: `");
    push_decimal(&mut text, ws_data.process as u128);
    push_text(&mut text, "`");
    assert(text@ == with_usage(head, *figures, ws_data.process as nat));
    let ghost usage = text@;
    push_text(&mut text, "\n\nNET: `");
    push_text(&mut text, figures.total_net_down.as_str());
    push_text(&mut text, " GB` / `");
    push_text(&mut text, figures.total_net_up.as_str());
    push_text(&mut text, " GB`\nUP: `");
    push_text(&mut text, figures.net_down.as_str());
    push_text(&mut text, " Mbps`\nDOWN: `");
    push_text(&mut text, figures.net_up.as_str());
    push_text(&mut text, " Mbps`\nCONN: `");
    push_decimal(&mut text, ws_data.connections.tcp as u128);
    push_text(&mut text, " TCP` / `");
    push_decimal(&mut text, ws_data.connections.udp as u128);
    push_text(&mut text, " UDP`");
    assert(text@ == with_traffic(
        usage,
        *figures,
        ws_data.connections.tcp as nat,
        ws_data.connections.udp as nat,
    ));
    match &node.updated_at {
        Some(time) => {
            push_text(&mut text, "\n\nUPDATE AT: `");
            push_text(&mut text, time.as_str());
            push_text(&mut text, "`");
        },
        None => {},
    }
    text
}

/// Makes the report on one node from what was read for it: the profile of
/// the user, the inventory, the node that the number names with its
/// metrics, and the measurements of that node as they are shown. The node is
/// looked up in the inventory by its identifier; the report carries the
/// site's name, leaves out the graphics processor where the node has none
/// and the last update where its time is unknown, and is escaped for the
/// chat. The measurements are read only where there is a node to report on.
pub fn parse_ws_single_server_by_index(
    monitor: Result<Option<Monitor>, ErrorString>,
    nodes: Result<ApiNodes, ErrorString>,
    server: Result<Option<(String, ApiWsDataHashMapValue)>, ErrorString>,
    figures: &NodeFigures,
) -> (report: Result<String, ErrorString>)
    ensures
        text_result(report) == single_report(monitor, nodes, server, *figures),
{
    let profile = match monitor {
        Err(e) => {
            return Err(e);
        },
        Ok(None) => {
            return Err("服务器未连接，请先使用 /connect [http url] [ws url] 连接".to_owned());
        },
        Ok(Some(profile)) => profile,
    };
    let inventory = match nodes {
        Err(e) => {
            return Err(e);
        },
        Ok(inventory) => inventory,
    };
    let entry = match server {
        Err(e) => {
            return Err(e);
        },
        Ok(None) => {
            return Err("找不到该序号的服务器".to_owned());
        },
        Ok(Some(entry)) => entry,
    };
    match find_node(&inventory, entry.0.as_str()) {
        Some(at) => {
            let text = write_node_report(
                profile.site_name.as_str(),
                &inventory.data[at],
                &entry.1,
                figures,
            );
            Ok(msg_fixer(text))
        },
        None => Err("找不到该序号的服务器".to_owned()),
    }
}

} // verus!
