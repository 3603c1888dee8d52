//! Coverage tracking for the screen-outline gesture.
//!
//! While a drag is being traced, every pointer position close to one of the
//! four screen edges is recorded on that edge (x for the top and bottom
//! edges, y for the left and right ones, deduplicated per edge).  The
//! contour counts as complete when every edge, divided into equally sized
//! buckets, has a recorded coordinate in each bucket — a coarse check that
//! the drag went along the whole perimeter and did not merely touch each
//! side once.

use vstd::prelude::*;

verus! {

/// Bucket that coordinate `p` falls into when a span of `length` units is
/// divided into `segment_count` equal parts.
pub open spec fn spec_bucket(p: int, length: int, segment_count: int) -> int
    recommends
        length > 0,
{
    p * segment_count / length
}

/// Whether some coordinate among the first `n` entries of `points` falls
/// into bucket `k`.  Negative coordinates never land in a bucket.
pub open spec fn spec_covers_upto(
    points: Seq<i32>,
    length: int,
    segment_count: int,
    k: int,
    n: int,
) -> bool {
    exists|i: int|
        0 <= i < n && n <= points.len() && 0 <= points[i]
            && spec_bucket(points[i] as int, length, segment_count) == k
}

/// Whether some recorded coordinate falls into bucket `k`.
pub open spec fn spec_covers(points: Seq<i32>, length: int, segment_count: int, k: int) -> bool {
    spec_covers_upto(points, length, segment_count, k, points.len() as int)
}

/// Whether one edge is fully covered: at least one point was recorded and
/// every one of the `segment_count` buckets holds a recorded coordinate.
pub open spec fn spec_edge_complete(points: Seq<i32>, length: int, segment_count: int) -> bool {
    &&& points.len() > 0
    &&& forall|k: int|
        0 <= k < segment_count ==> spec_covers(points, length, segment_count, k)
}

/// Whether all four edges are fully covered.
pub open spec fn spec_contour_complete(
    top: Seq<i32>,
    right: Seq<i32>,
    bottom: Seq<i32>,
    left: Seq<i32>,
    screen_width: int,
    screen_height: int,
    segment_count: int,
) -> bool {
    &&& spec_edge_complete(top, screen_width, segment_count)
    &&& spec_edge_complete(bottom, screen_width, segment_count)
    &&& spec_edge_complete(left, screen_height, segment_count)
    &&& spec_edge_complete(right, screen_height, segment_count)
}

/// Whether `a` lies within `tolerance` of `b`.
pub open spec fn spec_near(a: int, b: int, tolerance: int) -> bool {
    (if a >= b {
        a - b
    } else {
        b - a
    }) <= tolerance
}

/// Whether `(x, y)` touches the top edge of a `w` by `h` screen.
pub open spec fn spec_on_top(x: int, y: int, w: int, h: int, tolerance: int) -> bool {
    spec_near(y, 0, tolerance) && 0 <= x <= w
}

/// Whether `(x, y)` touches the right edge of a `w` by `h` screen.
pub open spec fn spec_on_right(x: int, y: int, w: int, h: int, tolerance: int) -> bool {
    spec_near(x, w, tolerance) && 0 <= y <= h
}

/// Whether `(x, y)` touches the bottom edge of a `w` by `h` screen.
pub open spec fn spec_on_bottom(x: int, y: int, w: int, h: int, tolerance: int) -> bool {
    spec_near(y, h, tolerance) && 0 <= x <= w
}

/// Whether `(x, y)` touches the left edge of a `w` by `h` screen.
pub open spec fn spec_on_left(x: int, y: int, w: int, h: int, tolerance: int) -> bool {
    spec_near(x, 0, tolerance) && 0 <= y <= h
}

/// One edge's list after possibly recording coordinate `v`: appended when
/// the touch condition held and `v` is not yet present.
pub open spec fn spec_record(points: Seq<i32>, v: i32, touched: bool) -> Seq<i32> {
    if touched && !points.contains(v) {
        points.push(v)
    } else {
        points
    }
}

/// Recorded edge coordinates of one outline drag.
pub struct ScreenEdges {
    /// x coordinates recorded along the top edge.
    pub top: Vec<i32>,
    /// y coordinates recorded along the right edge.
    pub right: Vec<i32>,
    /// x coordinates recorded along the bottom edge.
    pub bottom: Vec<i32>,
    /// y coordinates recorded along the left edge.
    pub left: Vec<i32>,
}

fn vec_contains(points: &Vec<i32>, v: i32) -> (present: bool)
    ensures
        present == points@.contains(v),
{
    let mut i: usize = 0;
    while i < points.len()
        invariant
            0 <= i <= points@.len(),
            forall|j: int| 0 <= j < i ==> points@[j] != v,
        decreases points@.len() - i,
    {
        if points[i] == v {
            assert(points@[i as int] == v);
            return true;
        }
        i = i + 1;
    }
    false
}

/// Checks that `points` covers every one of the `segment_count` buckets of a
/// span of `length` units, and that at least one point was recorded at all.
fn check_coverage(points: &Vec<i32>, length: i32, segment_count: usize) -> (complete: bool)
    requires
        length > 0,
    ensures
        complete == spec_edge_complete(points@, length as int, segment_count as int),
{
    if points.len() == 0 {
        return false;
    }

    let mut covered: Vec<bool> = Vec::new();
    let mut k: usize = 0;
    while k < segment_count
        invariant
            0 <= k <= segment_count,
            covered@.len() == k,
            forall|j: int| 0 <= j < k ==> covered@[j] == false,
        decreases segment_count - k,
    {
        covered.push(false);
        k = k + 1;
    }

    let mut i: usize = 0;
    while i < points.len()
        invariant
            0 <= i <= points@.len(),
            length > 0,
            covered@.len() == segment_count,
            forall|j: int|
                0 <= j < segment_count ==> covered@[j] == spec_covers_upto(
                    points@,
                    length as int,
                    segment_count as int,
                    j,
                    i as int,
                ),
        decreases points@.len() - i,
    {
        let p = points[i];
        if p >= 0 {
            proof {
                assert((p as int) * (segment_count as int) < 0x8000_0000_0000_0000_0000_0000)
                    by (nonlinear_arith)
                    requires
                        0 <= (p as int) && (p as int) < 0x8000_0000,
                        0 <= (segment_count as int) && (segment_count as int)
                            < 0x1_0000_0000_0000_0000,
                ;
            }
            let idx_wide: u128 = (p as u128) * (segment_count as u128) / (length as u128);
            assert(idx_wide == spec_bucket(p as int, length as int, segment_count as int));
            if idx_wide < segment_count as u128 {
                let idx = idx_wide as usize;
                covered.set(idx, true);
            }
        }
        i = i + 1;
        assert forall|j: int| 0 <= j < segment_count implies covered@[j] == spec_covers_upto(
            points@,
            length as int,
            segment_count as int,
            j,
            i as int,
        ) by {
            if covered@[j] {
                assert(spec_covers_upto(points@, length as int, segment_count as int, j, i as int));
            } else {
                assert forall|m: int| 0 <= m < i implies !(0 <= points@[m]
                    && spec_bucket(points@[m] as int, length as int, segment_count as int) == j) by {
                    if m == i - 1 {
                    }
                }
            }
        }
    }

    let mut k: usize = 0;
    while k < segment_count
        invariant
            0 <= k <= segment_count,
            covered@.len() == segment_count,
            length > 0,
            forall|j: int|
                0 <= j < segment_count ==> covered@[j] == spec_covers(
                    points@,
                    length as int,
                    segment_count as int,
                    j,
                ),
            forall|j: int| 0 <= j < k ==> spec_covers(points@, length as int, segment_count as int, j),
        decreases segment_count - k,
    {
        if !covered[k] {
            return false;
        }
        k = k + 1;
    }
    true
}

impl ScreenEdges {
    /// Creates an empty record with nothing visited yet.
    pub fn new() -> (edges: Self)
        ensures
            edges.top@ =~= Seq::<i32>::empty(),
            edges.right@ =~= Seq::<i32>::empty(),
            edges.bottom@ =~= Seq::<i32>::empty(),
            edges.left@ =~= Seq::<i32>::empty(),
    {
        ScreenEdges { top: Vec::new(), right: Vec::new(), bottom: Vec::new(), left: Vec::new() }
    }

    /// Records pointer position `(x, y)` on every edge of a `screen_width`
    /// by `screen_height` screen that it touches within `tolerance`,
    /// deduplicating each edge's coordinates.
    pub fn update_edges_rectangle(
        &mut self,
        x: i32,
        y: i32,
        screen_width: i32,
        screen_height: i32,
        tolerance: i32,
    )
        ensures
            final(self).top@ == spec_record(
                old(self).top@,
                x,
                spec_on_top(x as int, y as int, screen_width as int, screen_height as int, tolerance as int),
            ),
            final(self).right@ == spec_record(
                old(self).right@,
                y,
                spec_on_right(x as int, y as int, screen_width as int, screen_height as int, tolerance as int),
            ),
            final(self).bottom@ == spec_record(
                old(self).bottom@,
                x,
                spec_on_bottom(x as int, y as int, screen_width as int, screen_height as int, tolerance as int),
            ),
            final(self).left@ == spec_record(
                old(self).left@,
                y,
                spec_on_left(x as int, y as int, screen_width as int, screen_height as int, tolerance as int),
            ),
    {
        let xl = x as i64;
        let yl = y as i64;
        let wl = screen_width as i64;
        let hl = screen_height as i64;
        let tol = tolerance as i64;

        let near_top = (if yl >= 0 { yl } else { -yl }) <= tol;
        if near_top && x >= 0 && xl <= wl {
            if !vec_contains(&self.top, x) {
                self.top.push(x);
            }
        }

        let near_right = (if xl >= wl { xl - wl } else { wl - xl }) <= tol;
        if near_right && y >= 0 && yl <= hl {
            if !vec_contains(&self.right, y) {
                self.right.push(y);
            }
        }

        let near_bottom = (if yl >= hl { yl - hl } else { hl - yl }) <= tol;
        if near_bottom && x >= 0 && xl <= wl {
            if !vec_contains(&self.bottom, x) {
                self.bottom.push(x);
            }
        }

        let near_left = (if xl >= 0 { xl } else { -xl }) <= tol;
        if near_left && y >= 0 && yl <= hl {
            if !vec_contains(&self.left, y) {
                self.left.push(y);
            }
        }
    }

    /// Decides whether the recorded drag traced the whole screen outline:
    /// each edge's span is divided into `segment_count` equal buckets and
    /// every bucket of every edge must hold a recorded coordinate.
    pub fn is_contour_complete(
        &self,
        screen_width: i32,
        screen_height: i32,
        segment_count: usize,
    ) -> (complete: bool)
        requires
            screen_width > 0,
            screen_height > 0,
        ensures
            complete == spec_contour_complete(
                self.top@,
                self.right@,
                self.bottom@,
                self.left@,
                screen_width as int,
                screen_height as int,
                segment_count as int,
            ),
    {
        if !check_coverage(&self.top, screen_width, segment_count) {
            return false;
        }
        if !check_coverage(&self.bottom, screen_width, segment_count) {
            return false;
        }
        if !check_coverage(&self.left, screen_height, segment_count) {
            return false;
        }
        if !check_coverage(&self.right, screen_height, segment_count) {
            return false;
        }
        true
    }

    /// Clears all four edges for the next drag.
    pub fn reset(&mut self)
        ensures
            final(self).top@ =~= Seq::<i32>::empty(),
            final(self).right@ =~= Seq::<i32>::empty(),
            final(self).bottom@ =~= Seq::<i32>::empty(),
            final(self).left@ =~= Seq::<i32>::empty(),
    {
        self.top.clear();
        self.right.clear();
        self.bottom.clear();
        self.left.clear();
    }
}

/// A contour is never complete while some edge has no recorded coordinate
/// at all, no matter how densely the other edges were traced.
pub proof fn lemma_contour_incomplete_when_edge_untouched(
    top: Seq<i32>,
    right: Seq<i32>,
    bottom: Seq<i32>,
    left: Seq<i32>,
    screen_width: int,
    screen_height: int,
    segment_count: int,
)
    requires
        top.len() == 0 || right.len() == 0 || bottom.len() == 0 || left.len() == 0,
    ensures
        !spec_contour_complete(top, right, bottom, left, screen_width, screen_height, segment_count),
{
}

/// A drag that puts at least one coordinate into every bucket of every edge
/// completes the contour.
pub proof fn lemma_contour_complete_when_all_buckets_visited(
    top: Seq<i32>,
    right: Seq<i32>,
    bottom: Seq<i32>,
    left: Seq<i32>,
    screen_width: int,
    screen_height: int,
    segment_count: int,
)
    requires
        segment_count >= 1,
        forall|k: int|
            0 <= k < segment_count ==> spec_covers(top, screen_width, segment_count, k),
        forall|k: int|
            0 <= k < segment_count ==> spec_covers(bottom, screen_width, segment_count, k),
        forall|k: int|
            0 <= k < segment_count ==> spec_covers(left, screen_height, segment_count, k),
        forall|k: int|
            0 <= k < segment_count ==> spec_covers(right, screen_height, segment_count, k),
    ensures
        spec_contour_complete(top, right, bottom, left, screen_width, screen_height, segment_count),
{
    assert(spec_covers(top, screen_width, segment_count, 0));
    assert(spec_covers(bottom, screen_width, segment_count, 0));
    assert(spec_covers(left, screen_height, segment_count, 0));
    assert(spec_covers(right, screen_height, segment_count, 0));
}

/// Removing the only coordinate that covered one bucket leaves that edge —
/// and with it the contour — incomplete.
pub proof fn lemma_edge_incomplete_after_removing_sole_cover(
    points: Seq<i32>,
    length: int,
    segment_count: int,
    i: int,
    k: int,
)
    requires
        0 <= i < points.len(),
        0 <= k < segment_count,
        forall|j: int|
            0 <= j < points.len() && j != i ==> !(0 <= points[j] && spec_bucket(
                points[j] as int,
                length,
                segment_count,
            ) == k),
    ensures
        !spec_edge_complete(points.remove(i), length, segment_count),
{
    let removed = points.remove(i);
    assert forall|m: int| 0 <= m < removed.len() implies !(0 <= removed[m] && spec_bucket(
        removed[m] as int,
        length,
        segment_count,
    ) == k) by {
        if m < i {
            assert(removed[m] == points[m]);
        } else {
            assert(removed[m] == points[m + 1]);
        }
    }
    assert(!spec_covers(removed, length, segment_count, k));
}

} // verus!
