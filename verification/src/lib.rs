//! Validated polygon geometry for geographic (longitude, latitude) data.
//!
//! A [`FeaturePolygon`] owns an ordered list of rings; construction checks
//! that at least one ring is present, that every ring has at least four
//! points, and that every ring is closed (first point equal to last).
//! On top of that, `utils` offers a convexity analysis of the outer ring
//! driven by geodesic bearings between consecutive vertices.
//!
//! Coordinates and angles are held in fixed point: one degree is
//! `1_000_000_000` units, so a unit is a nano-degree.

use vstd::prelude::*;

pub mod utils;

use crate::utils::{polygons_close, pt_close, rings_close, compare_rings};

verus! {

/// A geographic position in fixed-point nano-degrees:
/// `lng` is the longitude, `lat` the latitude.
#[derive(Clone, Copy, PartialEq, Eq, Structural, Debug)]
pub struct Point {
    pub lng: i64,
    pub lat: i64,
}

/// Why a polygon construction was rejected. The two ring-level causes are
/// distinct so a caller can tell which invariant broke.
#[derive(Clone, Copy, PartialEq, Eq, Structural, Debug)]
pub enum PolygonError {
    /// The ring list was empty.
    NoRings,
    /// A ring had fewer than four points.
    RingTooShort,
    /// A ring's first point was not exactly equal to its last point.
    RingNotClosed,
}

/// Why a single ring is rejected, if it is. A too-short ring is reported
/// as such even when its endpoints also differ, matching the order in
/// which the checks run.
pub open spec fn ring_error(ring: Seq<Point>) -> Option<PolygonError> {
    if ring.len() < 4 {
        Some(PolygonError::RingTooShort)
    } else if ring[0] != ring[ring.len() - 1] {
        Some(PolygonError::RingNotClosed)
    } else {
        None
    }
}

/// The first violation among the rings, scanning them in order.
pub open spec fn rings_error(rings: Seq<Seq<Point>>) -> Option<PolygonError>
    decreases rings.len(),
{
    if rings.len() == 0 {
        None
    } else if ring_error(rings[0]) is Some {
        ring_error(rings[0])
    } else {
        rings_error(rings.drop_first())
    }
}

/// Why a polygon built from `rings` is rejected, if it is: an empty ring
/// list, else the first offending ring's own violation.
pub open spec fn construction_error(rings: Seq<Seq<Point>>) -> Option<PolygonError> {
    if rings.len() == 0 {
        Some(PolygonError::NoRings)
    } else {
        rings_error(rings)
    }
}

/// The ring list of a coordinate vector, as a sequence of sequences.
pub open spec fn coords_view(coords: Seq<Vec<Point>>) -> Seq<Seq<Point>> {
    coords.map_values(|ring: Vec<Point>| ring@)
}

/// A polygon: an ordered list of closed rings of at least four points,
/// ring 0 being the outer boundary (the shell) and any further rings
/// holes. Immutable once constructed.
#[derive(Clone, Debug)]
pub struct FeaturePolygon {
    rings: Vec<Vec<Point>>,
}

impl View for FeaturePolygon {
    type V = Seq<Seq<Point>>;

    closed spec fn view(&self) -> Seq<Seq<Point>> {
        self.rings@.map_values(|ring: Vec<Point>| ring@)
    }
}

impl FeaturePolygon {
    /// The construction invariants: at least one ring, every ring with at
    /// least four points, every ring closed.
    pub open spec fn wf(&self) -> bool {
        construction_error(self@) is None
    }

    /// Build a polygon after checking every construction invariant;
    /// reports the first violation found, scanning the rings in order.
    pub fn new(coordinates: Vec<Vec<Point>>) -> (result: Result<FeaturePolygon, PolygonError>)
        ensures
            result is Ok <==> construction_error(coords_view(coordinates@)) is None,
            result matches Ok(p) ==> p@ == coords_view(coordinates@) && p.wf(),
            result matches Err(e) ==> construction_error(coords_view(coordinates@)) == Some(e),
    {
        let ghost rs = coords_view(coordinates@);
        if coordinates.len() == 0 {
            return Err(PolygonError::NoRings);
        }
        let mut i: usize = 0;
        while i < coordinates.len()
            invariant
                i <= coordinates@.len(),
                rs == coords_view(coordinates@),
                forall|j: int| 0 <= j < i ==> ring_error(rs[j]) is None,
            decreases coordinates@.len() - i,
        {
            let ring: &Vec<Point> = &coordinates[i];
            proof {
                assert(rs[i as int] == ring@);
                lemma_rings_error_skip(rs, i as int);
            }
            if ring.len() < 4 {
                return Err(PolygonError::RingTooShort);
            }
            if !(ring[0] == ring[ring.len() - 1]) {
                return Err(PolygonError::RingNotClosed);
            }
            i += 1;
        }
        proof {
            lemma_rings_error_skip(rs, rs.len() as int);
        }
        Ok(FeaturePolygon { rings: coordinates })
    }

    /// Read access to the stored rings; no copy, no mutation.
    pub fn coordinates(&self) -> (rings: &Vec<Vec<Point>>)
        ensures
            coords_view(rings@) == self@,
    {
        &self.rings
    }

    /// Whether the outer ring is convex, judged from the geodesic bearings
    /// of its consecutive edges: true exactly when every interior angle is
    /// at most 180 degrees. `bearings[k]` must be the initial bearing from
    /// shell vertex `k` to vertex `k + 1`, in fixed-point units of any
    /// sign or range.
    pub fn is_convex(&self, bearings: &Vec<i64>) -> (r: bool)
        requires
            self.wf(),
            utils::ring_in_range(self@[0]),
            self@[0].len() <= utils::MAX_RING_POINTS,
            bearings@.len() == self@[0].len() - 1,
        ensures
            r == utils::convex_spec(self@[0], bearings@),
    {
        utils::is_convex(self, bearings)
    }
}

/// If the first `k` rings are free of violations, the scan's verdict is
/// the verdict on the remaining rings.
proof fn lemma_rings_error_skip(rings: Seq<Seq<Point>>, k: int)
    requires
        0 <= k <= rings.len(),
        forall|j: int| 0 <= j < k ==> ring_error(rings[j]) is None,
    ensures
        rings_error(rings) == rings_error(rings.skip(k)),
    decreases k,
{
    if k > 0 {
        assert(rings.drop_first() =~= rings.skip(1));
        assert(forall|j: int| 0 <= j < k - 1 ==> ring_error(rings.skip(1)[j]) is None);
        lemma_rings_error_skip(rings.skip(1), k - 1);
        assert(rings.skip(1).skip(k - 1) =~= rings.skip(k));
    } else {
        assert(rings.skip(0) =~= rings);
    }
}

impl PartialEq for FeaturePolygon {
    /// Positional equality with tolerance: same number of rings, and
    /// ring by ring every corresponding point pair within the equality
    /// tolerance on both axes.
    fn eq(&self, other: &Self) -> (r: bool) {
        if self.rings.len() != other.rings.len() {
            return false;
        }
        let mut i: usize = 0;
        while i < self.rings.len()
            invariant
                self.rings@.len() == other.rings@.len(),
                i <= self.rings@.len(),
                forall|j: int| 0 <= j < i ==> rings_close(self@[j], other@[j]),
            decreases self.rings@.len() - i,
        {
            proof {
                assert(self@[i as int] == self.rings@[i as int]@);
                assert(other@[i as int] == other.rings@[i as int]@);
            }
            if !compare_rings(&self.rings[i], &other.rings[i]) {
                proof {
                    assert(!rings_close(self@[i as int], other@[i as int]));
                }
                return false;
            }
            i += 1;
        }
        true
    }
}

impl vstd::std_specs::cmp::PartialEqSpecImpl for FeaturePolygon {
    open spec fn obeys_eq_spec() -> bool {
        true
    }

    open spec fn eq_spec(&self, other: &Self) -> bool {
        polygons_close(self@, other@)
    }
}

/// Two polygons of the same shape whose corresponding points differ by
/// less than the equality tolerance on each axis compare as equal.
pub proof fn lemma_close_polygons_equal(a: FeaturePolygon, b: FeaturePolygon)
    requires
        a@.len() == b@.len(),
        forall|i: int| 0 <= i < a@.len() ==> a@[i].len() == b@[i].len(),
        forall|i: int, j: int|
            0 <= i < a@.len() && 0 <= j < a@[i].len() ==> pt_close(a@[i][j], b@[i][j]),
    ensures
        polygons_close(a@, b@),
{
}

/// One corresponding point pair a full order of magnitude out of
/// tolerance on some axis makes the polygons unequal.
pub proof fn lemma_distant_polygons_unequal(a: FeaturePolygon, b: FeaturePolygon, i: int, j: int)
    requires
        0 <= i < a@.len(),
        0 <= j < a@[i].len(),
        vstd::math::abs(a@[i][j].lng - b@[i][j].lng) >= 10 * utils::EQ_TOLERANCE
            || vstd::math::abs(a@[i][j].lat - b@[i][j].lat) >= 10 * utils::EQ_TOLERANCE,
    ensures
        !polygons_close(a@, b@),
{
    if polygons_close(a@, b@) {
        assert(rings_close(a@[i], b@[i]));
        assert(pt_close(a@[i][j], b@[i][j]));
    }
}

} // verus!
