//! Looking through the points that a conversation can be rewound to.

use vstd::prelude::*;

use crate::phase::{points_of, PointModel, RewindPointInfo};

verus! {

/// Some prompt from `target` on edited files.
pub open spec fn edited_from(points: Seq<PointModel>, target: usize) -> bool {
    exists|i: int|
        0 <= i < points.len() && (#[trigger] points[i]).prompt_index >= target
            && points[i].num_file_snapshots > 0
}

/// Whether restoring to `target` would move anything on disk.
///
/// A point's `num_file_snapshots` counts only that prompt's own edits, but a restore to `target`
/// reverts every path touched at prompt index >= `target`, so the question is cumulative.
pub fn has_tracked_edits_from(points: &[RewindPointInfo], target: usize) -> (r: bool)
    ensures
        r == edited_from(points_of(points@), target),
{
    let mut i: usize = 0;
    while i < points.len()
        invariant
            i <= points@.len(),
            forall|j: int|
                0 <= j < i ==> !((#[trigger] points@[j]).prompt_index >= target
                    && points@[j].num_file_snapshots > 0),
        decreases points@.len() - i,
    {
        if points[i].prompt_index >= target && points[i].num_file_snapshots > 0 {
            assert(points_of(points@)[i as int].prompt_index >= target);
            return true;
        }
        i = i + 1;
    }
    assert forall|j: int| 0 <= j < points@.len() implies !((#[trigger] points_of(
        points@,
    )[j]).prompt_index >= target && points_of(points@)[j].num_file_snapshots > 0) by {
        assert(points_of(points@)[j] == points@[j]@);
    }
    false
}

/// The first point with the index `target`.
pub open spec fn point_for(points: Seq<PointModel>, target: usize) -> Option<PointModel>
    decreases points.len(),
{
    if points.len() == 0 {
        None
    } else if points[0].prompt_index == target {
        Some(points[0])
    } else {
        point_for(points.drop_first(), target)
    }
}

/// The position of the first point with the index `target`.
pub(crate) fn position_for(points: &[RewindPointInfo], target: usize) -> (r: Option<usize>)
    ensures
        match r {
            Some(i) => i < points@.len() && point_for(points_of(points@), target) == Some(
                points@[i as int]@,
            ),
            None => point_for(points_of(points@), target) is None,
        },
{
    let ghost all = points_of(points@);
    let mut i: usize = 0;
    assert(all.skip(0) =~= all);
    while i < points.len()
        invariant
            i <= points@.len(),
            all == points_of(points@),
            point_for(all, target) == point_for(all.skip(i as int), target),
        decreases points@.len() - i,
    {
        assert(all.skip(i as int)[0] == points@[i as int]@);
        assert(all.skip(i as int).drop_first() =~= all.skip(i + 1));
        if points[i].prompt_index == target {
            return Some(i);
        }
        i = i + 1;
    }
    None
}

/// The point with the highest index, the last one where several share it.
pub open spec fn newest(points: Seq<PointModel>) -> PointModel
    recommends
        points.len() > 0,
    decreases points.len(),
{
    if points.len() <= 1 {
        points[0]
    } else if newest(points.drop_last()).prompt_index > points.last().prompt_index {
        newest(points.drop_last())
    } else {
        points.last()
    }
}

/// The position of the point with the highest index.
pub(crate) fn newest_position(points: &[RewindPointInfo]) -> (r: usize)
    requires
        points@.len() > 0,
    ensures
        r < points@.len(),
        points@[r as int]@ == newest(points_of(points@)),
{
    let ghost all = points_of(points@);
    let mut best: usize = 0;
    let mut i: usize = 1;
    assert(all.take(1)[0] == points@[0]@);
    while i < points.len()
        invariant
            1 <= i <= points@.len(),
            best < i,
            all == points_of(points@),
            points@[best as int]@ == newest(all.take(i as int)),
        decreases points@.len() - i,
    {
        assert(all.take(i + 1).drop_last() =~= all.take(i as int));
        assert(all.take(i + 1).last() == points@[i as int]@);
        if points[best].prompt_index <= points[i].prompt_index {
            best = i;
        }
        i = i + 1;
    }
    assert(all.take(i as int) =~= all);
    best
}

/// The point that a rewind to `target` offers: the one with that index, or else the newest.
pub open spec fn resolved(points: Seq<PointModel>, target: usize) -> PointModel {
    match point_for(points, target) {
        Some(p) => p,
        None => newest(points),
    }
}

proof fn lemma_point_for(points: Seq<PointModel>, target: usize)
    ensures
        match point_for(points, target) {
            Some(p) => points.contains(p) && p.prompt_index == target,
            None => forall|i: int|
                0 <= i < points.len() ==> (#[trigger] points[i]).prompt_index != target,
        },
    decreases points.len(),
{
    if points.len() > 0 {
        let rest = points.drop_first();
        lemma_point_for(rest, target);
        if points[0].prompt_index == target {
            assert(points.contains(points[0]));
        } else if let Some(p) = point_for(rest, target) {
            let i = choose|i: int| 0 <= i < rest.len() && rest[i] == p;
            assert(points[i + 1] == p);
        } else {
            assert forall|i: int| 0 <= i < points.len() implies (
            #[trigger] points[i]).prompt_index != target by {
                if i > 0 {
                    assert(points[i] == rest[i - 1]);
                }
            }
        }
    }
}

proof fn lemma_newest(points: Seq<PointModel>)
    requires
        points.len() > 0,
    ensures
        points.contains(newest(points)),
        forall|i: int|
            0 <= i < points.len() ==> (#[trigger] points[i]).prompt_index <= newest(
                points,
            ).prompt_index,
    decreases points.len(),
{
    if points.len() == 1 {
        assert(points.contains(points[0]));
    } else {
        let rest = points.drop_last();
        lemma_newest(rest);
        assert forall|i: int| 0 <= i < points.len() implies (#[trigger] points[i]).prompt_index
            <= newest(points).prompt_index by {
            if i < rest.len() {
                assert(points[i] == rest[i]);
            }
        }
        let i = choose|i: int| 0 <= i < rest.len() && rest[i] == newest(rest);
        assert(points[i] == newest(rest));
        assert(points.contains(points.last()));
    }
}

/// The point offered for a turn is one of those that were loaded: one with that turn's index
/// wherever there is one, and otherwise one with the highest index of all.
pub proof fn law_resolved_point(points: Seq<PointModel>, target: usize)
    requires
        points.len() > 0,
    ensures
        points.contains(resolved(points, target)),
        (exists|i: int| 0 <= i < points.len() && (#[trigger] points[i]).prompt_index == target)
            ==> resolved(points, target).prompt_index == target,
        resolved(points, target).prompt_index == target || forall|i: int|
            0 <= i < points.len() ==> (#[trigger] points[i]).prompt_index <= resolved(
                points,
                target,
            ).prompt_index,
{
    lemma_point_for(points, target);
    lemma_newest(points);
}

/// `point` put into a list that runs from high indices to low ones, after those that share its
/// index.
pub open spec fn placed(points: Seq<PointModel>, point: PointModel) -> Seq<PointModel>
    decreases points.len(),
{
    if points.len() == 0 || points.last().prompt_index >= point.prompt_index {
        points.push(point)
    } else {
        placed(points.drop_last(), point).push(points.last())
    }
}

/// The points from the highest index to the lowest; those that share one keep their order.
pub open spec fn newest_first(points: Seq<PointModel>) -> Seq<PointModel>
    decreases points.len(),
{
    if points.len() == 0 {
        points
    } else {
        placed(newest_first(points.drop_last()), points.last())
    }
}

/// The indices never go up along the list.
pub open spec fn descending(points: Seq<PointModel>) -> bool {
    forall|i: int, j: int|
        0 <= i <= j < points.len() ==> (#[trigger] points[i]).prompt_index >= (
        #[trigger] points[j]).prompt_index
}

/// The points with one index, in order.
pub open spec fn sharing(points: Seq<PointModel>, index: usize) -> Seq<PointModel> {
    points.filter(|p: PointModel| p.prompt_index == index)
}

proof fn lemma_placed(points: Seq<PointModel>, point: PointModel, at: int)
    requires
        0 <= at <= points.len(),
        at > 0 ==> points[at - 1].prompt_index >= point.prompt_index,
        forall|j: int|
            at <= j < points.len() ==> (#[trigger] points[j]).prompt_index < point.prompt_index,
    ensures
        placed(points, point) == points.insert(at, point),
    decreases points.len(),
{
    if at == points.len() {
        assert(placed(points, point) =~= points.insert(at, point));
    } else {
        lemma_placed(points.drop_last(), point, at);
        assert(placed(points, point) =~= points.insert(at, point));
    }
}

proof fn lemma_placed_descending(points: Seq<PointModel>, point: PointModel)
    requires
        descending(points),
    ensures
        descending(placed(points, point)),
        placed(points, point).len() == points.len() + 1,
        placed(points, point).last().prompt_index == if points.len() > 0
            && points.last().prompt_index < point.prompt_index {
            points.last().prompt_index
        } else {
            point.prompt_index
        },
    decreases points.len(),
{
    if points.len() > 0 && points.last().prompt_index < point.prompt_index {
        assert(descending(points.drop_last()));
        lemma_placed_descending(points.drop_last(), point);
    }
}

proof fn lemma_placed_sharing(points: Seq<PointModel>, point: PointModel, index: usize)
    requires
        descending(points),
    ensures
        sharing(placed(points, point), index) == if point.prompt_index == index {
            sharing(points, index).push(point)
        } else {
            sharing(points, index)
        },
    decreases points.len(),
{
    let same = |p: PointModel| p.prompt_index == index;
    let out = placed(points, point);
    if points.len() == 0 || points.last().prompt_index >= point.prompt_index {
        assert(out.drop_last() =~= points);
        reveal(Seq::filter);
    } else {
        let rest = points.drop_last();
        assert(descending(rest));
        lemma_placed_sharing(rest, point, index);
        assert(out.drop_last() =~= placed(rest, point));
        assert(sharing(out, index) == if same(points.last()) {
            sharing(placed(rest, point), index).push(points.last())
        } else {
            sharing(placed(rest, point), index)
        }) by {
            reveal(Seq::filter);
        }
        assert(sharing(points, index) == if same(points.last()) {
            sharing(rest, index).push(points.last())
        } else {
            sharing(rest, index)
        }) by {
            reveal(Seq::filter);
        }
        if point.prompt_index == index {
            assert(!same(points.last()));
        }
    }
}

/// Listing points newest first only reorders them: the indices run downwards, no point is added
/// or lost, and points that share an index keep their order.
pub proof fn law_newest_first(points: Seq<PointModel>)
    ensures
        newest_first(points).len() == points.len(),
        descending(newest_first(points)),
        forall|index: usize| #[trigger]
            sharing(newest_first(points), index) == sharing(points, index),
    decreases points.len(),
{
    if points.len() > 0 {
        let rest = points.drop_last();
        law_newest_first(rest);
        lemma_placed_descending(newest_first(rest), points.last());
        assert forall|index: usize| #[trigger]
            sharing(newest_first(points), index) == sharing(points, index) by {
            lemma_placed_sharing(newest_first(rest), points.last(), index);
            assert(sharing(rest, index) == sharing(newest_first(rest), index));
            reveal(Seq::filter);
        }
    }
}

/// A copy of the points, newest first.
pub fn sort_newest_first(points: &Vec<RewindPointInfo>) -> (r: Vec<RewindPointInfo>)
    ensures
        points_of(r@) == newest_first(points_of(points@)),
{
    let ghost all = points_of(points@);
    let mut sorted: Vec<RewindPointInfo> = Vec::new();
    let mut i: usize = 0;
    assert(points_of(sorted@) =~= newest_first(all.take(0)));
    while i < points.len()
        invariant
            i <= points@.len(),
            all == points_of(points@),
            points_of(sorted@) == newest_first(all.take(i as int)),
        decreases points@.len() - i,
    {
        assert(all.take(i + 1).drop_last() =~= all.take(i as int));
        assert(all.take(i + 1).last() == points@[i as int]@);
        let mut at: usize = sorted.len();
        while at > 0 && sorted[at - 1].prompt_index < points[i].prompt_index
            invariant
                i < points@.len(),
                at <= sorted@.len(),
                forall|j: int|
                    at <= j < sorted@.len() ==> (#[trigger] sorted@[j]).prompt_index
                        < points@[i as int].prompt_index,
            decreases at,
        {
            at = at - 1;
        }
        let ghost before = points_of(sorted@);
        let point = points[i].clone();
        proof {
            assert(at > 0 ==> before[at - 1] == sorted@[at - 1]@);
            assert forall|j: int| at <= j < before.len() implies (
            #[trigger] before[j]).prompt_index < point@.prompt_index by {
                assert(before[j] == sorted@[j]@);
            }
            lemma_placed(before, point@, at as int);
        }
        sorted.insert(at, point);
        assert(points_of(sorted@) =~= before.insert(at as int, point@));
        i = i + 1;
    }
    assert(all.take(i as int) =~= all);
    sorted
}

} // verus!
