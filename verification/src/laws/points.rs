//! What is read off the list of rewind points.

use vstd::prelude::*;

use crate::phase::PointModel;
use crate::points::{edited_from, newest, newest_first, placed, point_for, resolved};

verus! {

/// Point `i` is the first with this index.
pub open spec fn first_with(points: Seq<PointModel>, index: usize, i: int) -> bool {
    &&& 0 <= i < points.len()
    &&& points[i].prompt_index == index
    &&& forall|j: int| 0 <= j < i ==> (#[trigger] points[j]).prompt_index != index
}

/// Point `i` has the highest index of all, and is the last that has it.
pub open spec fn last_highest(points: Seq<PointModel>, i: int) -> bool {
    &&& 0 <= i < points.len()
    &&& forall|j: int|
        0 <= j < points.len() ==> (#[trigger] points[j]).prompt_index <= points[i].prompt_index
    &&& forall|j: int|
        i < j < points.len() ==> (#[trigger] points[j]).prompt_index < points[i].prompt_index
}

/// Files would move exactly if some prompt from the target on, the target's own among them, has a
/// snapshot.
pub proof fn law_edits_from_the_target_on(points: Seq<PointModel>, target: usize)
    ensures
        forall|i: int|
            0 <= i < points.len() && (#[trigger] points[i]).prompt_index >= target
                && points[i].num_file_snapshots > 0 ==> edited_from(points, target),
        (forall|i: int|
            0 <= i < points.len() ==> (#[trigger] points[i]).prompt_index < target
                || points[i].num_file_snapshots == 0) ==> !edited_from(points, target),
{
}

/// Looking for a turn finds the first point with its index, and nothing only if there is none.
pub proof fn law_point_found(points: Seq<PointModel>, target: usize, i: int)
    requires
        first_with(points, target, i),
    ensures
        point_for(points, target) == Some(points[i]),
    decreases points.len(),
{
    if i > 0 {
        let rest = points.drop_first();
        assert(points[0].prompt_index != target);
        assert forall|j: int| 0 <= j < i - 1 implies (#[trigger] rest[j]).prompt_index
            != target by {
            assert(rest[j] == points[j + 1]);
        }
        assert(rest[i - 1] == points[i]);
        law_point_found(rest, target, i - 1);
    }
}

/// Looking for a turn that no point is about finds nothing.
pub proof fn law_point_not_found(points: Seq<PointModel>, target: usize)
    requires
        forall|j: int| 0 <= j < points.len() ==> (#[trigger] points[j]).prompt_index != target,
    ensures
        point_for(points, target) is None,
    decreases points.len(),
{
    if points.len() > 0 {
        let rest = points.drop_first();
        assert(points[0].prompt_index != target);
        assert forall|j: int| 0 <= j < rest.len() implies (#[trigger] rest[j]).prompt_index
            != target by {
            assert(rest[j] == points[j + 1]);
        }
        law_point_not_found(rest, target);
    }
}

/// The newest point is the last of those with the highest index.
pub proof fn law_newest_point(points: Seq<PointModel>, i: int)
    requires
        last_highest(points, i),
    ensures
        newest(points) == points[i],
    decreases points.len(),
{
    if points.len() > 1 {
        let rest = points.drop_last();
        if i < rest.len() {
            assert forall|j: int| 0 <= j < rest.len() implies (#[trigger] rest[j]).prompt_index
                <= rest[i].prompt_index by {
                assert(rest[j] == points[j]);
            }
            assert forall|j: int| i < j < rest.len() implies (#[trigger] rest[j]).prompt_index
                < rest[i].prompt_index by {
                assert(rest[j] == points[j]);
            }
            law_newest_point(rest, i);
            assert(points[points.len() - 1].prompt_index < points[i].prompt_index);
        } else {
            lemma_newest_is_one(rest);
            let k = choose|k: int| 0 <= k < rest.len() && #[trigger] rest[k] == newest(rest);
            assert(points[k].prompt_index <= points[i].prompt_index);
        }
    }
}

proof fn lemma_newest_is_one(points: Seq<PointModel>)
    requires
        points.len() > 0,
    ensures
        exists|k: int| 0 <= k < points.len() && #[trigger] points[k] == newest(points),
    decreases points.len(),
{
    if points.len() == 1 {
        assert(points[0] == newest(points));
    } else {
        let rest = points.drop_last();
        lemma_newest_is_one(rest);
        let k = choose|k: int| 0 <= k < rest.len() && #[trigger] rest[k] == newest(rest);
        assert(points[k] == newest(rest));
        assert(points[points.len() - 1] == points.last());
    }
}

/// A turn that some point is about is taken as it is; any other is replaced by the newest.
pub proof fn law_turn_resolved(points: Seq<PointModel>, target: usize, i: int)
    ensures
        first_with(points, target, i) ==> resolved(points, target) == points[i],
        (forall|j: int| 0 <= j < points.len() ==> (#[trigger] points[j]).prompt_index != target)
            && last_highest(points, i) ==> resolved(points, target) == points[i],
{
    if first_with(points, target, i) {
        law_point_found(points, target, i);
    }
    if (forall|j: int| 0 <= j < points.len() ==> (#[trigger] points[j]).prompt_index != target)
        && last_highest(points, i) {
        law_point_not_found(points, target);
        law_newest_point(points, i);
    }
}

proof fn lemma_placed_splits(points: Seq<PointModel>, point: PointModel) -> (at: int)
    ensures
        0 <= at <= points.len(),
        placed(points, point) == points.insert(at, point),
        at > 0 ==> points[at - 1].prompt_index >= point.prompt_index,
        forall|j: int|
            at <= j < points.len() ==> (#[trigger] points[j]).prompt_index < point.prompt_index,
    decreases points.len(),
{
    if points.len() == 0 || points.last().prompt_index >= point.prompt_index {
        assert(placed(points, point) =~= points.insert(points.len() as int, point));
        points.len() as int
    } else {
        let rest = points.drop_last();
        let at = lemma_placed_splits(rest, point);
        assert(placed(points, point) =~= points.insert(at, point));
        assert forall|j: int| at <= j < points.len() implies (#[trigger] points[j]).prompt_index
            < point.prompt_index by {
            if j < rest.len() {
                assert(points[j] == rest[j]);
            }
        }
        at
    }
}

/// The list shows the same points as were loaded, no more, no fewer, each as often.
pub proof fn law_list_keeps_the_points(points: Seq<PointModel>)
    ensures
        newest_first(points).to_multiset() == points.to_multiset(),
    decreases points.len(),
{
    if points.len() > 0 {
        let rest = points.drop_last();
        let sorted = newest_first(rest);
        law_list_keeps_the_points(rest);
        let at = lemma_placed_splits(sorted, points.last());
        sorted.to_multiset_ensures();
        rest.to_multiset_ensures();
        assert(points =~= rest.push(points.last()));
        assert(rest.push(points.last()).to_multiset() =~= rest.to_multiset().insert(points.last()));
        vstd::seq_lib::to_multiset_insert(sorted, at, points.last());
    }
}

/// The list begins with a point of the highest index.
pub proof fn law_list_begins_with_the_newest(points: Seq<PointModel>, i: int)
    requires
        0 <= i < points.len(),
    ensures
        newest_first(points).len() == points.len(),
        newest_first(points)[0].prompt_index >= points[i].prompt_index,
    decreases points.len(),
{
    let rest = points.drop_last();
    crate::points::law_newest_first(points);
    crate::points::law_newest_first(rest);
    let sorted = newest_first(rest);
    let at = lemma_placed_splits(sorted, points.last());
    if rest.len() > 0 {
        if i < rest.len() {
            law_list_begins_with_the_newest(rest, i);
            assert(rest[i] == points[i]);
        }
        if at == 0 {
            assert(sorted[0].prompt_index < points.last().prompt_index);
        } else {
            assert(sorted[0].prompt_index >= sorted[at - 1].prompt_index);
        }
    }
}

} // verus!
