//! Angle arithmetic and ring analysis: ring comparison with tolerance,
//! winding detection, interior angles and the convexity classifier.

use vstd::prelude::*;

use crate::{FeaturePolygon, Point};

verus! {

/// One degree in fixed-point units (nano-degrees).
pub const DEGREE: i64 = 1_000_000_000;

/// A straight angle: 180 degrees in fixed-point units.
pub const STRAIGHT_ANGLE: i64 = 180_000_000_000;

/// A full turn: 360 degrees in fixed-point units.
pub const FULL_TURN: i64 = 360_000_000_000;

/// Positional tolerance of polygon equality: 100 nano-degrees, that is
/// 1e-7 degrees, roughly 11 mm at Earth scale.
pub const EQ_TOLERANCE: i64 = 100;

/// Largest longitude magnitude: 180 degrees.
pub const LNG_LIMIT: i64 = 180_000_000_000;

/// Largest latitude magnitude: 90 degrees.
pub const LAT_LIMIT: i64 = 90_000_000_000;

/// Cap on ring sizes accepted by the winding analysis, far above any real
/// ring; it keeps the shoelace sum within a 128-bit accumulator.
pub const MAX_RING_POINTS: usize = 1_000_000_000;

/// An angle reduced into `[0, FULL_TURN)`: the Euclidean remainder of the
/// angle by a full turn.
pub open spec fn norm_angle(x: int) -> int {
    x % (FULL_TURN as int)
}

/// Normalize an angle into `[0, FULL_TURN)`, so that for example
/// -30 degrees becomes 330 degrees and 710 degrees becomes 350.
pub fn abs_angle(x: i64) -> (r: i64)
    ensures
        r as int == norm_angle(x as int),
        0 <= r < FULL_TURN,
{
    let m: i64 = x % FULL_TURN;
    if m < 0 {
        m + FULL_TURN
    } else {
        m
    }
}

/// Both coordinates of the two points within the equality tolerance.
pub open spec fn pt_close(a: Point, b: Point) -> bool {
    vstd::math::abs(a.lng - b.lng) < EQ_TOLERANCE && vstd::math::abs(a.lat - b.lat) < EQ_TOLERANCE
}

/// Positional ring equality: same length, every corresponding point pair
/// within tolerance.
pub open spec fn rings_close(a: Seq<Point>, b: Seq<Point>) -> bool {
    a.len() == b.len() && forall|i: int| 0 <= i < a.len() ==> pt_close(a[i], b[i])
}

/// Positional polygon equality: same number of rings, corresponding rings
/// close.
pub open spec fn polygons_close(a: Seq<Seq<Point>>, b: Seq<Seq<Point>>) -> bool {
    a.len() == b.len() && forall|i: int| 0 <= i < a.len() ==> rings_close(a[i], b[i])
}

/// Whether the coordinates in the two rings are the same up to the
/// equality tolerance, position by position.
pub fn compare_rings(ring1: &Vec<Point>, ring2: &Vec<Point>) -> (r: bool)
    ensures
        r == rings_close(ring1@, ring2@),
{
    if ring1.len() != ring2.len() {
        return false;
    }
    let mut i: usize = 0;
    while i < ring1.len()
        invariant
            ring1@.len() == ring2@.len(),
            i <= ring1@.len(),
            forall|j: int| 0 <= j < i ==> pt_close(ring1@[j], ring2@[j]),
        decreases ring1@.len() - i,
    {
        let p1 = ring1[i];
        let p2 = ring2[i];
        let dlng: i128 = p1.lng as i128 - p2.lng as i128;
        let dlat: i128 = p1.lat as i128 - p2.lat as i128;
        let tol: i128 = EQ_TOLERANCE as i128;
        if !(-tol < dlng && dlng < tol && -tol < dlat && dlat < tol) {
            return false;
        }
        i += 1;
    }
    true
}

/// The point within the longitude and latitude ranges of the globe.
pub open spec fn pt_in_range(p: Point) -> bool {
    -(LNG_LIMIT as int) <= p.lng <= LNG_LIMIT && -(LAT_LIMIT as int) <= p.lat <= LAT_LIMIT
}

/// Every point of the ring within range.
pub open spec fn ring_in_range(ring: Seq<Point>) -> bool {
    forall|i: int| 0 <= i < ring.len() ==> pt_in_range(ring[i])
}

/// The shoelace-style term of one directed edge.
pub open spec fn edge_term(p1: Point, p2: Point) -> int {
    (p2.lng - p1.lng) * (p2.lat + p1.lat)
}

/// The signed shoelace-style sum over the first `n` edges of the ring.
pub open spec fn shoelace_partial(ring: Seq<Point>, n: int) -> int
    decreases n,
{
    if n <= 0 {
        0
    } else {
        shoelace_partial(ring, n - 1) + edge_term(ring[n - 1], ring[n])
    }
}

/// The signed shoelace-style sum over all consecutive edges of the ring.
pub open spec fn shoelace(ring: Seq<Point>) -> int {
    if ring.len() == 0 {
        0
    } else {
        shoelace_partial(ring, ring.len() - 1)
    }
}

/// Winding direction of a ring: a positive shoelace sum means clockwise.
pub open spec fn is_clockwise_spec(ring: Seq<Point>) -> bool {
    shoelace(ring) > 0
}

/// Detect the winding direction of a ring: true for clockwise, judged by
/// the sign of the shoelace sum over its consecutive edges.
pub fn is_clockwise(ring: &Vec<Point>) -> (r: bool)
    requires
        ring_in_range(ring@),
        ring@.len() <= MAX_RING_POINTS,
    ensures
        r == is_clockwise_spec(ring@),
{
    if ring.len() == 0 {
        return false;
    }
    let mut sum: i128 = 0;
    let mut i: usize = 0;
    while i + 1 < ring.len()
        invariant
            ring_in_range(ring@),
            ring@.len() <= MAX_RING_POINTS,
            1 <= ring@.len(),
            i + 1 <= ring@.len(),
            sum == shoelace_partial(ring@, i as int),
            -64_800_000_000_000_000_000_000int * (i as int) <= sum
                <= 64_800_000_000_000_000_000_000int * (i as int),
        decreases ring@.len() - i,
    {
        let p1 = ring[i];
        let p2 = ring[i + 1];
        let dlng: i128 = p2.lng as i128 - p1.lng as i128;
        let slat: i128 = p2.lat as i128 + p1.lat as i128;
        proof {
            assert(pt_in_range(ring@[i as int]));
            assert(pt_in_range(ring@[i as int + 1]));
            assert(-64_800_000_000_000_000_000_000int <= dlng * slat
                <= 64_800_000_000_000_000_000_000int) by (nonlinear_arith)
                requires
                    -360_000_000_000int <= dlng <= 360_000_000_000int,
                    -180_000_000_000int <= slat <= 180_000_000_000int,
            ;
        }
        let term: i128 = dlng * slat;
        sum = sum + term;
        i += 1;
    }
    sum > 0
}

/// Walking an edge backwards negates its shoelace term.
proof fn lemma_edge_term_antisym(p: Point, q: Point)
    ensures
        edge_term(p, q) == -edge_term(q, p),
{
    let a = p.lng as int;
    let b = p.lat as int;
    let c = q.lng as int;
    let d = q.lat as int;
    assert((c - a) * (d + b) == -((a - c) * (b + d))) by (nonlinear_arith);
}

/// The first `m` edges of the reversed ring are the last `m` edges of the
/// ring walked backwards, so their shoelace sums are negations.
proof fn lemma_shoelace_partial_reverse(ring: Seq<Point>, m: int)
    requires
        1 <= ring.len(),
        0 <= m <= ring.len() - 1,
    ensures
        shoelace_partial(ring.reverse(), m) == -(shoelace_partial(ring, ring.len() - 1)
            - shoelace_partial(ring, ring.len() - 1 - m)),
    decreases m,
{
    let n = ring.len() as int;
    if m > 0 {
        lemma_shoelace_partial_reverse(ring, m - 1);
        lemma_edge_term_antisym(ring[n - 1 - m], ring[n - m]);
        assert(ring.reverse()[m - 1] == ring[n - m]);
        assert(ring.reverse()[m] == ring[n - 1 - m]);
        assert(shoelace_partial(ring, n - m) == shoelace_partial(ring, n - m - 1) + edge_term(
            ring[n - m - 1],
            ring[n - m],
        ));
    }
}

/// Reversing a ring negates its shoelace sum: the winding direction
/// flips with the traversal order. In particular the reversal of a
/// clockwise ring is counter-clockwise.
pub proof fn lemma_shoelace_reverse(ring: Seq<Point>)
    ensures
        shoelace(ring.reverse()) == -shoelace(ring),
        is_clockwise_spec(ring.reverse()) <==> shoelace(ring) < 0,
{
    if ring.len() > 0 {
        lemma_shoelace_partial_reverse(ring, ring.len() - 1);
    }
}

/// A bearing delta oriented by the winding direction of the ring.
pub open spec fn oriented_delta(b1: int, b2: int, clockwise: bool) -> int {
    if clockwise {
        b2 - b1
    } else {
        -(b2 - b1)
    }
}

/// The interior angle derived from two consecutive edge bearings: the
/// supplement of the winding-oriented bearing delta, wrapped into
/// `[0, FULL_TURN)`. Raw bearings are normalized first.
pub open spec fn inner_angle_spec(b_prev: int, b_cur: int, clockwise: bool) -> int {
    norm_angle(STRAIGHT_ANGLE - oriented_delta(norm_angle(b_prev), norm_angle(b_cur), clockwise))
}

/// Which bearing precedes bearing `i` once the angle loop is closed: the
/// last bearing precedes the first.
pub open spec fn prev_bearing_index(i: int, n: int) -> int {
    if i == 0 {
        n - 1
    } else {
        i - 1
    }
}

/// The interior angle at shell vertex `i`, given the raw edge bearings
/// and the winding direction.
pub open spec fn inner_angle_at(bearings: Seq<i64>, i: int, clockwise: bool) -> int {
    inner_angle_spec(
        bearings[prev_bearing_index(i, bearings.len() as int)] as int,
        bearings[i] as int,
        clockwise,
    )
}

/// Convexity of a shell under the given raw edge bearings: every interior
/// angle at most a straight angle.
pub open spec fn convex_spec(shell: Seq<Point>, bearings: Seq<i64>) -> bool {
    forall|i: int|
        0 <= i < bearings.len() ==> inner_angle_at(bearings, i, is_clockwise_spec(shell))
            <= STRAIGHT_ANGLE
}

/// The interior angles at the vertices of the polygon's outer ring.
/// `bearings[k]` must be the initial geodesic bearing from shell vertex
/// `k` to vertex `k + 1`, in fixed-point units of any sign or range; the
/// winding direction is detected from the shell itself. Angle `k` sits at
/// vertex `k`, the delta over the closing edge included.
pub fn inner_angles(poly: &FeaturePolygon, bearings: &Vec<i64>) -> (angles: Vec<i64>)
    requires
        poly.wf(),
        ring_in_range(poly@[0]),
        poly@[0].len() <= MAX_RING_POINTS,
        bearings@.len() == poly@[0].len() - 1,
    ensures
        angles@.len() == bearings@.len(),
        forall|i: int|
            0 <= i < angles@.len() ==> angles@[i] as int == inner_angle_at(
                bearings@,
                i,
                is_clockwise_spec(poly@[0]),
            ),
        forall|i: int| 0 <= i < angles@.len() ==> 0 <= #[trigger] angles@[i] < FULL_TURN,
{
    let rings = poly.coordinates();
    let shell: &Vec<Point> = &rings[0];
    proof {
        assert(shell@ == poly@[0]);
    }
    let clockwise = is_clockwise(shell);
    let n: usize = bearings.len();

    let mut norms: Vec<i64> = Vec::new();
    let mut i: usize = 0;
    while i < n
        invariant
            n == bearings@.len(),
            i <= n,
            norms@.len() == i,
            forall|j: int| 0 <= j < i ==> norms@[j] as int == norm_angle(bearings@[j] as int),
            forall|j: int| 0 <= j < i ==> 0 <= #[trigger] norms@[j] < FULL_TURN,
        decreases n - i,
    {
        let b: i64 = abs_angle(bearings[i]);
        norms.push(b);
        i += 1;
    }

    let mut angles: Vec<i64> = Vec::new();
    let mut k: usize = 0;
    while k < n
        invariant
            n == bearings@.len(),
            3 <= n,
            norms@.len() == n,
            clockwise == is_clockwise_spec(poly@[0]),
            forall|j: int| 0 <= j < n ==> norms@[j] as int == norm_angle(bearings@[j] as int),
            forall|j: int| 0 <= j < n ==> 0 <= #[trigger] norms@[j] < FULL_TURN,
            k <= n,
            angles@.len() == k,
            forall|j: int|
                0 <= j < k ==> angles@[j] as int == inner_angle_at(
                    bearings@,
                    j,
                    is_clockwise_spec(poly@[0]),
                ),
            forall|j: int| 0 <= j < k ==> 0 <= #[trigger] angles@[j] < FULL_TURN,
        decreases n - k,
    {
        let prev: i64 = if k == 0 {
            norms[n - 1]
        } else {
            norms[k - 1]
        };
        let cur: i64 = norms[k];
        let delta: i64 = if clockwise {
            cur - prev
        } else {
            prev - cur
        };
        let angle: i64 = abs_angle(STRAIGHT_ANGLE - delta);
        angles.push(angle);
        k += 1;
    }
    angles
}

/// Whether the outer ring of the polygon is convex: true exactly when
/// every interior angle derived from the given edge bearings is at most
/// 180 degrees. `bearings[k]` must be the initial geodesic bearing from
/// shell vertex `k` to vertex `k + 1`, in fixed-point units.
pub fn is_convex(poly: &FeaturePolygon, bearings: &Vec<i64>) -> (r: bool)
    requires
        poly.wf(),
        ring_in_range(poly@[0]),
        poly@[0].len() <= MAX_RING_POINTS,
        bearings@.len() == poly@[0].len() - 1,
    ensures
        r == convex_spec(poly@[0], bearings@),
{
    let angles = inner_angles(poly, bearings);
    let mut i: usize = 0;
    while i < angles.len()
        invariant
            angles@.len() == bearings@.len(),
            i <= angles@.len(),
            forall|j: int|
                0 <= j < angles@.len() ==> angles@[j] as int == inner_angle_at(
                    bearings@,
                    j,
                    is_clockwise_spec(poly@[0]),
                ),
            forall|j: int|
                0 <= j < i ==> inner_angle_at(bearings@, j, is_clockwise_spec(poly@[0]))
                    <= STRAIGHT_ANGLE,
        decreases angles@.len() - i,
    {
        if angles[i] > STRAIGHT_ANGLE {
            return false;
        }
        i += 1;
    }
    true
}

} // verus!

