use vstd::prelude::*;

use crate::direction::Direction;
use crate::direction::left_of;
use crate::direction::lemma_probe_headings_distinct;
use crate::direction::right_of;
use crate::grid::Matrix;
use crate::grid::MatrixPoint;
use crate::grid::Pixel;
use crate::grid::is_road;

verus! {

/// The candidate entry contributed by probing one heading: a singleton
/// when the neighbor in that heading exists, empty otherwise.
pub open spec fn probe(g: Matrix, p: MatrixPoint, d: Direction) -> Seq<(Direction, Pixel)> {
    match g.spec_neighbor(p, d) {
        Some(px) => seq![(d, px)],
        None => seq![],
    }
}

/// The ordered candidate list for one movement step: the reachable
/// neighbors at forward, right, left and back, in that priority order.
/// Out-of-bounds headings are omitted entirely.
pub open spec fn candidates(g: Matrix, p: MatrixPoint, dir: Direction) -> Seq<(Direction, Pixel)> {
    probe(g, p, dir) + probe(g, p, right_of(dir)) + probe(g, p, left_of(dir)) + probe(
        g,
        p,
        dir.spec_opposite(),
    )
}

/// Index of the first candidate whose cell resolves to `Road`, or the
/// list's length when no candidate does.
pub open spec fn first_road_idx(cands: Seq<(Direction, Pixel)>) -> int
    decreases cands.len(),
{
    if cands.len() == 0 {
        0
    } else if is_road(cands[0].1) {
        0
    } else {
        1 + first_road_idx(cands.drop_first())
    }
}

/// The selection policy over a non-empty candidate list: the first road
/// candidate wins unless it lies directly behind the cursor; a road found
/// only behind is ignored in favor of the forward cell when forward is the
/// top candidate; in every other case the cursor bounces to the last
/// (lowest-priority) candidate.
pub open spec fn spec_select(cands: Seq<(Direction, Pixel)>, dir: Direction) -> Pixel
    recommends
        cands.len() > 0,
{
    let k = first_road_idx(cands);
    if k < cands.len() {
        if cands[k].0 != dir.spec_opposite() {
            cands[k].1
        } else if cands[0].0 == dir {
            cands[0].1
        } else {
            cands.last().1
        }
    } else {
        cands.last().1
    }
}

/// `first_road_idx` stays within the list, lands on a road when one
/// exists, and skips no road.
pub proof fn lemma_first_road_idx_props(cands: Seq<(Direction, Pixel)>)
    ensures
        0 <= first_road_idx(cands) <= cands.len(),
        first_road_idx(cands) < cands.len() ==> is_road(cands[first_road_idx(cands)].1),
        forall|j: int| 0 <= j < first_road_idx(cands) ==> !is_road(cands[j].1),
    decreases cands.len(),
{
    if cands.len() == 0 {
    } else if is_road(cands[0].1) {
    } else {
        lemma_first_road_idx_props(cands.drop_first());
        assert forall|j: int| 0 <= j < first_road_idx(cands) implies !is_road(cands[j].1) by {
            if j > 0 {
                assert(cands.drop_first()[j - 1] == cands[j]);
            }
        }
    }
}

/// `first_road_idx` is minimal: it never passes over a road candidate.
pub proof fn lemma_first_road_idx_min(cands: Seq<(Direction, Pixel)>, i: int)
    requires
        0 <= i < cands.len(),
        is_road(cands[i].1),
    ensures
        first_road_idx(cands) <= i,
    decreases cands.len(),
{
    if !is_road(cands[0].1) {
        assert(cands.drop_first()[i - 1] == cands[i]);
        lemma_first_road_idx_min(cands.drop_first(), i - 1);
    }
}

/// In a candidate list only the last entry can carry the behind heading:
/// the back probe comes last, and the four probed headings are distinct.
pub proof fn lemma_candidates_back_only_last(g: Matrix, p: MatrixPoint, dir: Direction)
    ensures
        forall|j: int|
            0 <= j < candidates(g, p, dir).len() && (#[trigger] candidates(g, p, dir)[j]).0
                == dir.spec_opposite() ==> j == candidates(g, p, dir).len() - 1,
{
    lemma_probe_headings_distinct(dir);
    let f = probe(g, p, dir);
    let r = probe(g, p, right_of(dir));
    let l = probe(g, p, left_of(dir));
    let b = probe(g, p, dir.spec_opposite());
    let cands = candidates(g, p, dir);
    assert forall|j: int|
        0 <= j < cands.len() && (#[trigger] cands[j]).0 == dir.spec_opposite() implies j
        == cands.len() - 1 by {
        assert(cands[j] == (f + r + l + b)[j]);
    }
}

/// Law (road preference): when some reachable candidate is a road that
/// does not lie directly behind the cursor, the selector picks the first
/// road candidate in priority order — a road cell, never the behind
/// heading — over every other reachable neighbor.
pub proof fn lemma_road_preference(g: Matrix, p: MatrixPoint, dir: Direction)
    requires
        exists|i: int|
            0 <= i < candidates(g, p, dir).len() && is_road(
                (#[trigger] candidates(g, p, dir)[i]).1,
            ) && candidates(g, p, dir)[i].0 != dir.spec_opposite(),
    ensures
        ({
            let cands = candidates(g, p, dir);
            let k = first_road_idx(cands);
            &&& 0 <= k < cands.len()
            &&& is_road(cands[k].1)
            &&& cands[k].0 != dir.spec_opposite()
            &&& spec_select(cands, dir) == cands[k].1
        }),
{
    let cands = candidates(g, p, dir);
    let i = choose|i: int|
        0 <= i < cands.len() && is_road((#[trigger] cands[i]).1) && cands[i].0
            != dir.spec_opposite();
    lemma_first_road_idx_props(cands);
    lemma_first_road_idx_min(cands, i);
    let k = first_road_idx(cands);
    if cands[k].0 == dir.spec_opposite() {
        lemma_candidates_back_only_last(g, p, dir);
        assert(k == cands.len() - 1);
        assert(i == k);
        assert(false);
    }
}

/// Law (behind-road exception): when the forward neighbor exists, the
/// behind neighbor is a road, and neither the right nor the left neighbor
/// is a road, the selector chooses the forward cell, not the behind road.
pub proof fn lemma_behind_road_exception(g: Matrix, p: MatrixPoint, dir: Direction)
    requires
        g.spec_neighbor(p, dir) is Some,
        g.spec_neighbor(p, dir.spec_opposite()) is Some,
        is_road(g.spec_neighbor(p, dir.spec_opposite()).unwrap()),
        g.spec_neighbor(p, right_of(dir)) is Some ==> !is_road(
            g.spec_neighbor(p, right_of(dir)).unwrap(),
        ),
        g.spec_neighbor(p, left_of(dir)) is Some ==> !is_road(
            g.spec_neighbor(p, left_of(dir)).unwrap(),
        ),
    ensures
        spec_select(candidates(g, p, dir), dir) == g.spec_neighbor(p, dir).unwrap(),
{
    lemma_probe_headings_distinct(dir);
    let f = probe(g, p, dir);
    let r = probe(g, p, right_of(dir));
    let l = probe(g, p, left_of(dir));
    let b = probe(g, p, dir.spec_opposite());
    let cands = candidates(g, p, dir);
    let fpx = g.spec_neighbor(p, dir).unwrap();
    assert(cands[0] == (dir, fpx));
    lemma_first_road_idx_props(cands);
    if is_road(fpx) {
        // the forward cell is itself the first road and is not behind
        assert(first_road_idx(cands) == 0);
        assert(spec_select(cands, dir) == fpx);
    } else {
        // the only road is the behind entry, which sits at the end
        let last = cands.len() - 1;
        assert(cands[last] == (dir.spec_opposite(), g.spec_neighbor(
            p,
            dir.spec_opposite(),
        ).unwrap()));
        assert forall|j: int| 0 <= j < last implies !is_road(cands[j].1) by {
            assert(cands[j] == (f + r + l + b)[j]);
        }
        lemma_first_road_idx_min(cands, last);
        let k = first_road_idx(cands);
        assert(k == last);
        assert(cands[0].0 == dir);
        assert(spec_select(cands, dir) == fpx);
    }
}

/// Law (bounce fallback): at a dead end — only the back heading reachable
/// and its cell not a road — the selector returns the back neighbor.
pub proof fn lemma_bounce_fallback(g: Matrix, p: MatrixPoint, dir: Direction)
    requires
        g.spec_neighbor(p, dir) is None,
        g.spec_neighbor(p, right_of(dir)) is None,
        g.spec_neighbor(p, left_of(dir)) is None,
        g.spec_neighbor(p, dir.spec_opposite()) is Some,
        !is_road(g.spec_neighbor(p, dir.spec_opposite()).unwrap()),
    ensures
        spec_select(candidates(g, p, dir), dir) == g.spec_neighbor(
            p,
            dir.spec_opposite(),
        ).unwrap(),
{
    let cands = candidates(g, p, dir);
    let bpx = g.spec_neighbor(p, dir.spec_opposite()).unwrap();
    assert(cands =~= seq![(dir.spec_opposite(), bpx)]);
    assert(cands.drop_first() =~= Seq::<(Direction, Pixel)>::empty());
    assert(first_road_idx(cands.drop_first()) == 0);
    assert(!is_road(cands[0].1));
    assert(first_road_idx(cands) == 1);
    assert(cands.last() == (dir.spec_opposite(), bpx));
}

} // verus!
