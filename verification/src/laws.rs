//! What holds of the list engine whatever the records, the filter and the keys.

use crate::engine::{
    adjusted_start, is_first_at, lemma_position_unique, match_pred, passes, position, visible_of,
    AppView, Direction,
};
use crate::record::Record;
use vstd::prelude::*;

verus! {

/// No two records share a serial.
pub open spec fn serials_unique(records: Seq<Record>) -> bool {
    forall|i: int, j: int|
        0 <= i < records.len() && 0 <= j < records.len() && i != j ==> records[i].serial
            != records[j].serial
}

/// The state after `steps` moves of the selection, one after the other.
pub open spec fn after_moves(s: AppView, steps: Seq<Direction>) -> AppView
    decreases steps.len(),
{
    if steps.len() == 0 {
        s
    } else {
        after_moves(s, steps.drop_last()).moved(steps.last())
    }
}

/// `n` moves to the next record.
pub open spec fn nexts(n: nat) -> Seq<Direction> {
    Seq::new(n, |i: int| Direction::Next)
}

/// The visible records are exactly the records that pass the filter: a record
/// is visible if and only if it is among the records and matches the query.
pub proof fn law_visible_members(records: Seq<Record>, query: Seq<char>, r: Record)
    ensures
        visible_of(records, query).contains(r) <==> records.contains(r) && passes(r, query),
{
    let pred = match_pred(query);
    let vis = visible_of(records, query);
    if vis.contains(r) {
        let i = choose|i: int| 0 <= i < vis.len() && vis[i] == r;
        records.lemma_filter_pred(pred, i);
        records.lemma_filter_contains_rev(pred, r);
    }
    if records.contains(r) && passes(r, query) {
        let i = choose|i: int| 0 <= i < records.len() && records[i] == r;
        records.lemma_filter_contains(pred, i);
    }
}

/// A filter that every record passes hides none.
pub proof fn law_filter_keeps_all(records: Seq<Record>, query: Seq<char>)
    requires
        forall|i: int| 0 <= i < records.len() ==> passes(#[trigger] records[i], query),
    ensures
        visible_of(records, query) == records,
    decreases records.len(),
{
    reveal(Seq::filter);
    if records.len() > 0 {
        let rest = records.drop_last();
        assert forall|i: int| 0 <= i < rest.len() implies passes(#[trigger] rest[i], query) by {
            assert(rest[i] == records[i]);
        }
        law_filter_keeps_all(rest, query);
        assert(passes(records[records.len() - 1], query));
        assert(rest.push(records.last()) =~= records);
    }
}

/// A filter keeps records apart that were apart: where no record occurs
/// twice, no visible record does.
pub proof fn law_visible_distinct(records: Seq<Record>, query: Seq<char>)
    requires
        records.no_duplicates(),
    ensures
        visible_of(records, query).no_duplicates(),
    decreases records.len(),
{
    reveal(Seq::filter);
    let pred = match_pred(query);
    if records.len() > 0 {
        let rest = records.drop_last();
        let last = records.last();
        assert(rest.no_duplicates()) by {
            assert forall|i: int, j: int|
                0 <= i < rest.len() && 0 <= j < rest.len() && i != j implies rest[i] != rest[j] by {
                assert(rest[i] == records[i] && rest[j] == records[j]);
            }
        }
        law_visible_distinct(rest, query);
        if pred(last) {
            let kept = rest.filter(pred);
            if kept.contains(last) {
                rest.lemma_filter_contains_rev(pred, last);
                let i = choose|i: int| 0 <= i < rest.len() && rest[i] == last;
                assert(records[i] == records[records.len() - 1]);
            }
            assert forall|i: int, j: int|
                0 <= i < kept.push(last).len() && 0 <= j < kept.push(last).len() && i
                    != j implies kept.push(last)[i] != kept.push(last)[j] by {
                if i < kept.len() && j < kept.len() {
                    assert(kept[i] != kept[j]);
                } else if i < kept.len() {
                    assert(kept.contains(kept[i]));
                } else {
                    assert(kept.contains(kept[j]));
                }
            }
        }
    }
}

/// A padded serial stands for the place that it stood for before: the
/// records of a list still carry the serials of their places once the list
/// has padded them.
pub proof fn law_padding_keeps_serials(serial: Seq<char>, place: nat)
    requires
        crate::serial::denotes(serial, place),
    ensures
        crate::serial::denotes(crate::engine::padded_serial(serial), place),
{
    let padded = seq!['0'] + serial;
    assert(padded.drop_first() =~= serial);
}

/// Records with different serials are different records.
pub proof fn law_unique_serials_distinct(records: Seq<Record>)
    requires
        serials_unique(records),
    ensures
        records.no_duplicates(),
{
}

/// Moving the window to cover an index a second time changes nothing, as long
/// as the window holds one record at least.
pub proof fn law_adjust_idempotent(start: int, size: int, index: int)
    requires
        size >= 1,
    ensures
        adjusted_start(adjusted_start(start, size, index), size, index) == adjusted_start(
            start,
            size,
            index,
        ),
{
}

/// A window of one record at least covers the index that it was moved to.
pub proof fn law_adjust_covers(start: int, size: int, index: int)
    requires
        size >= 1,
    ensures
        adjusted_start(start, size, index) <= index < adjusted_start(start, size, index) + size,
{
}

/// In a sequence without repeats every record stands at its own place.
pub proof fn lemma_position_of_distinct(s: Seq<Record>, k: int)
    requires
        s.no_duplicates(),
        0 <= k < s.len(),
    ensures
        position(s, s[k]) == Some(k),
{
    assert(is_first_at(s, s[k], k));
    lemma_position_unique(s, s[k], k);
}

/// One move leaves the selected record in the window, where no visible record
/// occurs twice and the window holds one record at least.
pub proof fn law_move_keeps_window(s: AppView, dir: Direction)
    requires
        s.window_size >= 1,
        s.visible().no_duplicates(),
    ensures
        s.moved(dir).window_holds(),
        s.moved(dir).selection_valid(),
        s.moved(dir).visible() == s.visible(),
        s.moved(dir).window_size == s.window_size,
{
    let vis = s.visible();
    let n = vis.len() as int;
    if n > 0 {
        match s.selected_index() {
            None => {
                lemma_position_of_distinct(vis, 0);
            },
            Some(k) => {
                let r = s.selected->0;
                assert(is_first_at(vis, r, k));
                match dir {
                    Direction::Next => {
                        if k + 1 == n {
                            lemma_position_of_distinct(vis, 0);
                        } else {
                            lemma_position_of_distinct(vis, k + 1);
                        }
                    },
                    Direction::Previous => {
                        if k == 0 {
                            lemma_position_of_distinct(vis, n - 1);
                        } else {
                            lemma_position_of_distinct(vis, k - 1);
                        }
                    },
                }
            },
        }
    }
}

/// After any run of moves the selected record lies in the window, if it did
/// before the run or the run has one move at least; where no visible record
/// occurs twice and the window holds one record at least.
pub proof fn law_window_invariant(s: AppView, steps: Seq<Direction>)
    requires
        s.window_size >= 1,
        s.visible().no_duplicates(),
        steps.len() > 0 || s.window_holds(),
    ensures
        after_moves(s, steps).window_holds(),
        after_moves(s, steps).visible() == s.visible(),
        after_moves(s, steps).window_size == s.window_size,
    decreases steps.len(),
{
    if steps.len() > 0 {
        let before = after_moves(s, steps.drop_last());
        if steps.len() > 1 {
            law_window_invariant(s, steps.drop_last());
        } else {
            assert(steps.drop_last().len() == 0);
        }
        law_move_keeps_window(before, steps.last());
    }
}

/// The place that the selection reaches from place `k` by `i` steps forward
/// through `n` records, for `i` up to `n`.
pub open spec fn stepped(k: int, i: int, n: int) -> int {
    if k + i < n {
        k + i
    } else {
        k + i - n
    }
}

/// Where the selection stands after up to as many moves forward as there are
/// visible records.
pub proof fn lemma_nexts_place(s: AppView, k: int, i: nat)
    requires
        s.visible().no_duplicates(),
        s.selected_index() == Some(k),
        i <= s.visible().len(),
    ensures
        after_moves(s, nexts(i)).selected_index() == Some(stepped(k, i as int, s.visible().len() as int)),
        after_moves(s, nexts(i)).visible() == s.visible(),
    decreases i,
{
    let vis = s.visible();
    let n = vis.len() as int;
    assert(is_first_at(vis, s.selected->0, k));
    if i > 0 {
        let shorter = nexts((i - 1) as nat);
        assert(nexts(i).drop_last() =~= shorter);
        assert(nexts(i).last() == Direction::Next);
        lemma_nexts_place(s, k, (i - 1) as nat);
        let before = after_moves(s, shorter);
        let j = stepped(k, i - 1, n);
        assert(before.selected_index() == Some(j));
        if j + 1 == n {
            lemma_position_of_distinct(vis, 0);
        } else {
            lemma_position_of_distinct(vis, j + 1);
        }
    } else {
        assert(nexts(0).len() == 0);
    }
}

/// With `n` visible records, none of them twice, and one of them selected,
/// `n` moves forward bring the selection back to where it was.
pub proof fn law_next_wraps(s: AppView)
    requires
        s.visible().no_duplicates(),
        s.selected_index() is Some,
    ensures
        after_moves(s, nexts(s.visible().len())).selected_index() == s.selected_index(),
        after_moves(s, nexts(s.visible().len())).selected == s.selected,
{
    let k = s.selected_index()->0;
    let vis = s.visible();
    lemma_nexts_place(s, k, vis.len());
    let end = after_moves(s, nexts(vis.len()));
    assert(is_first_at(vis, s.selected->0, k));
    assert(end.selected_index() == Some(k));
    assert(end.selected is Some);
    assert(is_first_at(vis, end.selected->0, k));
}

/// A record that stands somewhere in a sequence has a first place in it.
pub proof fn lemma_position_exists(s: Seq<Record>, k: int)
    requires
        0 <= k < s.len(),
    ensures
        position(s, s[k]) is Some,
    decreases k,
{
    if exists|j: int| 0 <= j < k && s[j] == s[k] {
        let j = choose|j: int| 0 <= j < k && s[j] == s[k];
        lemma_position_exists(s, j);
    } else {
        assert(is_first_at(s, s[k], k));
        lemma_position_unique(s, s[k], k);
    }
}

/// Whatever moves the selection leaves it on a visible record or on none:
/// a step, a jump to either end, taking it off, and a change of the window.
pub proof fn law_selection_stays_valid(s: AppView, dir: Direction, size: int)
    ensures
        s.moved(dir).selection_valid(),
        s.at_first().selection_valid(),
        s.at_last().selection_valid(),
        s.cleared().selection_valid(),
        s.selection_valid() ==> s.resized(size).selection_valid(),
        s.selection_valid() ==> s.cycled().selection_valid(),
{
    let vis = s.visible();
    let n = vis.len() as int;
    if n > 0 {
        lemma_position_exists(vis, 0);
        lemma_position_exists(vis, n - 1);
        match s.selected_index() {
            Some(k) => {
                assert(is_first_at(vis, s.selected->0, k));
                if k + 1 < n {
                    lemma_position_exists(vis, k + 1);
                }
                if k > 0 {
                    lemma_position_exists(vis, k - 1);
                }
            },
            None => {},
        }
    }
}

/// After the filter has been set, the selected record is visible; nothing is
/// selected only where nothing is visible.
pub proof fn law_filter_selects_visible(s: AppView, query: Seq<char>)
    ensures
        s.filtered(query).selection_valid(),
        s.filtered(query).selected matches Some(r) ==> s.filtered(query).visible().contains(r),
        s.filtered(query).selected is None <==> s.filtered(query).visible().len() == 0,
        s.filtered(query).selected_index() == (if s.filtered(query).visible().len() > 0 {
            Some(0int)
        } else {
            None
        }),
{
    let t = s.filtered(query);
    let vis = t.visible();
    if vis.len() > 0 {
        assert(is_first_at(vis, vis[0], 0));
        lemma_position_unique(vis, vis[0], 0);
    }
}

} // verus!
