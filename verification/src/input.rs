//! Validated input data: coordinates, points, point sets and extents.
//!
//! A coordinate is carried as the bit pattern of a 64-bit IEEE 754 value.
//! The encoding is read directly: the high bit is the sign, the next eleven
//! bits the exponent, the low fifty-two bits the fraction.  A coordinate is
//! usable when it encodes neither NaN, an infinity nor a subnormal value;
//! zero and every ordinary finite value are accepted.

use vstd::prelude::*;

verus! {

/// The exponent field of a 64-bit IEEE 754 bit pattern.
pub open spec fn exponent_bits(bits: u64) -> u64 {
    (bits >> 52u64) & 0x7ffu64
}

/// The fraction field of a 64-bit IEEE 754 bit pattern.
pub open spec fn fraction_bits(bits: u64) -> u64 {
    bits & 0x000f_ffff_ffff_ffffu64
}

/// A usable coordinate encodes neither NaN nor an infinity (exponent all
/// ones) nor a subnormal value (exponent zero with a non-zero fraction).
/// Both zeros are usable.
pub open spec fn is_usable_coordinate(bits: u64) -> bool {
    exponent_bits(bits) != 0x7ffu64 && !(exponent_bits(bits) == 0u64 && fraction_bits(bits)
        != 0u64)
}

/// Order key of a coordinate bit pattern: flipping the sign bit of
/// non-negative patterns and all bits of negative ones yields an unsigned
/// value whose order agrees with the numeric order of the encoded values
/// (every negative below every non-negative, magnitudes ascending).  The map
/// is injective, so the induced order is total and strict on distinct bit
/// patterns; the two zeros are adjacent, the negative one below.
pub open spec fn order_key(bits: u64) -> u64 {
    if bits & 0x8000_0000_0000_0000u64 != 0u64 {
        !bits
    } else {
        bits | 0x8000_0000_0000_0000u64
    }
}

/// The order key map is injective: distinct bit patterns keep distinct keys.
pub proof fn lemma_order_key_injective(a: u64, b: u64)
    requires
        order_key(a) == order_key(b),
    ensures
        a == b,
{
    assert(a == b) by (bit_vector)
        requires
            (if a & 0x8000_0000_0000_0000u64 != 0u64 {
                !a
            } else {
                a | 0x8000_0000_0000_0000u64
            }) == (if b & 0x8000_0000_0000_0000u64 != 0u64 {
                !b
            } else {
                b | 0x8000_0000_0000_0000u64
            });
}

/// Decides the strict order of two coordinates by their order keys.
pub fn coordinate_lt(a: u64, b: u64) -> (r: bool)
    ensures
        r == (order_key(a) < order_key(b)),
{
    let key_a: u64 = if a & 0x8000_0000_0000_0000 != 0 {
        !a
    } else {
        a | 0x8000_0000_0000_0000
    };
    let key_b: u64 = if b & 0x8000_0000_0000_0000 != 0 {
        !b
    } else {
        b | 0x8000_0000_0000_0000
    };
    key_a < key_b
}

/// A validated two-dimensional point.  Both coordinates are usable, and
/// equality, ordering and hashing are bitwise over the stored patterns,
/// which is sound precisely because no NaN pattern survives validation.
///
/// The fields are public so that the contracts of this crate can speak of
/// them openly; usability is therefore not a type invariant but an explicit
/// clause wherever it matters (`unique_points` yields usable points only,
/// see `lemma_unique_points_membership`), and no function here relies on a
/// point being valid beyond what its contract states.
#[derive(Clone, Copy, Debug, PartialEq, Eq, PartialOrd, Ord, Hash, Structural)]
pub struct Point2D {
    /// The bit pattern of the x-coordinate.
    pub x: u64,
    /// The bit pattern of the y-coordinate.
    pub y: u64,
}

impl Point2D {
    /// Tries to create a point from the two coordinate bit patterns; yields
    /// nothing when either coordinate is unusable (NaN, infinite or
    /// subnormal).
    pub fn new(x: u64, y: u64) -> (result: Option<Point2D>)
        ensures
            result == (if is_usable_coordinate(x) && is_usable_coordinate(y) {
                Some((Point2D { x, y }))
            } else {
                None::<Point2D>
            }),
    {
        let x_exponent: u64 = (x >> 52) & 0x7ff;
        let x_fraction: u64 = x & 0x000f_ffff_ffff_ffff;
        let y_exponent: u64 = (y >> 52) & 0x7ff;
        let y_fraction: u64 = y & 0x000f_ffff_ffff_ffff;
        if x_exponent == 0x7ff || (x_exponent == 0 && x_fraction != 0) || y_exponent == 0x7ff || (
        y_exponent == 0 && y_fraction != 0) {
            None
        } else {
            Some(Point2D { x, y })
        }
    }

    /// The bit pattern of the x-coordinate.
    pub fn x(&self) -> (r: u64)
        ensures
            r == self.x,
    {
        self.x
    }

    /// The bit pattern of the y-coordinate.
    pub fn y(&self) -> (r: u64)
        ensures
            r == self.y,
    {
        self.y
    }
}

/// Rejection invariant, spelled out on the encoding itself: the NaN, positive
/// infinity, negative infinity and subnormal patterns are all unusable, while
/// both zeros and ordinary finite patterns (here one, the largest finite
/// value, and the smallest normal value) are usable.
pub proof fn lemma_rejection_patterns()
    ensures
        !is_usable_coordinate(0x7ff8_0000_0000_0000u64),  // NaN
        !is_usable_coordinate(0x7ff0_0000_0000_0000u64),  // positive infinity
        !is_usable_coordinate(0xfff0_0000_0000_0000u64),  // negative infinity
        !is_usable_coordinate(0x0000_0000_0000_0001u64),  // smallest subnormal
        !is_usable_coordinate(0x000f_ffff_ffff_ffffu64),  // largest subnormal
        is_usable_coordinate(0x0000_0000_0000_0000u64),  // positive zero
        is_usable_coordinate(0x8000_0000_0000_0000u64),  // negative zero
        is_usable_coordinate(0x3ff0_0000_0000_0000u64),  // one
        is_usable_coordinate(0x7fef_ffff_ffff_ffffu64),  // largest finite value
        is_usable_coordinate(0x0010_0000_0000_0000u64),  // smallest normal value
{
    assert(((0x7ff8_0000_0000_0000u64 >> 52u64) & 0x7ffu64) == 0x7ffu64) by (bit_vector);
    assert(((0x7ff0_0000_0000_0000u64 >> 52u64) & 0x7ffu64) == 0x7ffu64) by (bit_vector);
    assert(((0xfff0_0000_0000_0000u64 >> 52u64) & 0x7ffu64) == 0x7ffu64) by (bit_vector);
    assert(((0x0000_0000_0000_0001u64 >> 52u64) & 0x7ffu64) == 0u64 && (0x0000_0000_0000_0001u64
        & 0x000f_ffff_ffff_ffffu64) != 0u64) by (bit_vector);
    assert(((0x000f_ffff_ffff_ffffu64 >> 52u64) & 0x7ffu64) == 0u64 && (0x000f_ffff_ffff_ffffu64
        & 0x000f_ffff_ffff_ffffu64) != 0u64) by (bit_vector);
    assert(((0x0000_0000_0000_0000u64 >> 52u64) & 0x7ffu64) == 0u64 && (0x0000_0000_0000_0000u64
        & 0x000f_ffff_ffff_ffffu64) == 0u64) by (bit_vector);
    assert(((0x8000_0000_0000_0000u64 >> 52u64) & 0x7ffu64) == 0u64 && (0x8000_0000_0000_0000u64
        & 0x000f_ffff_ffff_ffffu64) == 0u64) by (bit_vector);
    assert(((0x3ff0_0000_0000_0000u64 >> 52u64) & 0x7ffu64) == 0x3ffu64) by (bit_vector);
    assert(((0x7fef_ffff_ffff_ffffu64 >> 52u64) & 0x7ffu64) == 0x7feu64) by (bit_vector);
    assert(((0x0010_0000_0000_0000u64 >> 52u64) & 0x7ffu64) == 0x001u64) by (bit_vector);
}

/// The x-coordinates of a sequence of raw coordinate pairs.
pub open spec fn first_coordinates(s: Seq<(u64, u64)>) -> Seq<u64> {
    s.map_values(|c: (u64, u64)| c.0)
}

/// The y-coordinates of a sequence of raw coordinate pairs.
pub open spec fn second_coordinates(s: Seq<(u64, u64)>) -> Seq<u64> {
    s.map_values(|c: (u64, u64)| c.1)
}

/// The x-coordinates of a sequence of validated points.
pub open spec fn x_coordinates(s: Seq<Point2D>) -> Seq<u64> {
    s.map_values(|p: Point2D| p.x)
}

/// The y-coordinates of a sequence of validated points.
pub open spec fn y_coordinates(s: Seq<Point2D>) -> Seq<u64> {
    s.map_values(|p: Point2D| p.y)
}

/// The element of a non-empty coordinate sequence with the least order key.
/// Keys are injective, so the minimum is a single bit pattern.
pub open spec fn key_min(s: Seq<u64>) -> u64
    recommends
        s.len() > 0,
    decreases s.len(),
{
    if s.len() <= 1 {
        s[0]
    } else {
        let rest = key_min(s.drop_last());
        if order_key(s.last()) < order_key(rest) {
            s.last()
        } else {
            rest
        }
    }
}

/// The element of a non-empty coordinate sequence with the greatest order
/// key.
pub open spec fn key_max(s: Seq<u64>) -> u64
    recommends
        s.len() > 0,
    decreases s.len(),
{
    if s.len() <= 1 {
        s[0]
    } else {
        let rest = key_max(s.drop_last());
        if order_key(s.last()) > order_key(rest) {
            s.last()
        } else {
            rest
        }
    }
}

/// The key minimum is an element of the sequence and a lower bound of it.
pub proof fn lemma_key_min_properties(s: Seq<u64>)
    requires
        s.len() > 0,
    ensures
        s.contains(key_min(s)),
        forall|i: int| 0 <= i < s.len() ==> order_key(key_min(s)) <= order_key(#[trigger] s[i]),
    decreases s.len(),
{
    if s.len() > 1 {
        lemma_key_min_properties(s.drop_last());
        assert(s.drop_last().contains(key_min(s.drop_last())));
        let j = choose|j: int|
            0 <= j < s.drop_last().len() && s.drop_last()[j] == key_min(s.drop_last());
        assert(s[j] == key_min(s.drop_last()));
        assert(forall|i: int| 0 <= i < s.len() - 1 ==> s.drop_last()[i] == #[trigger] s[i]);
    }
}

/// The key maximum is an element of the sequence and an upper bound of it.
pub proof fn lemma_key_max_properties(s: Seq<u64>)
    requires
        s.len() > 0,
    ensures
        s.contains(key_max(s)),
        forall|i: int| 0 <= i < s.len() ==> order_key(#[trigger] s[i]) <= order_key(key_max(s)),
    decreases s.len(),
{
    if s.len() > 1 {
        lemma_key_max_properties(s.drop_last());
        assert(s.drop_last().contains(key_max(s.drop_last())));
        let j = choose|j: int|
            0 <= j < s.drop_last().len() && s.drop_last()[j] == key_max(s.drop_last());
        assert(s[j] == key_max(s.drop_last()));
        assert(forall|i: int| 0 <= i < s.len() - 1 ==> s.drop_last()[i] == #[trigger] s[i]);
    }
}

/// The axis-aligned extent summary of a polygon ring or a point set: the
/// least and greatest coordinate bit pattern per axis, in the coordinate
/// order of `order_key`.
#[derive(Clone, Copy, Debug, PartialEq, Eq, Structural)]
pub struct Bounds {
    /// The minimum x-coordinate of the bounding rectangle.
    pub min_x: u64,
    /// The maximum x-coordinate of the bounding rectangle.
    pub max_x: u64,
    /// The minimum y-coordinate of the bounding rectangle.
    pub min_y: u64,
    /// The maximum y-coordinate of the bounding rectangle.
    pub max_y: u64,
}

/// The extent summary of a sequence of raw coordinate pairs; absent exactly
/// when the sequence is empty.
pub open spec fn polygon_bounds(ring: Seq<(u64, u64)>) -> Option<Bounds> {
    if ring.len() == 0 {
        None
    } else {
        Some(
            (Bounds {
                min_x: key_min(first_coordinates(ring)),
                max_x: key_max(first_coordinates(ring)),
                min_y: key_min(second_coordinates(ring)),
                max_y: key_max(second_coordinates(ring)),
            }),
        )
    }
}

/// The extent summary of a sequence of validated points; absent exactly when
/// the sequence is empty.
pub open spec fn point_set_bounds(points: Seq<Point2D>) -> Option<Bounds> {
    if points.len() == 0 {
        None
    } else {
        Some(
            (Bounds {
                min_x: key_min(x_coordinates(points)),
                max_x: key_max(x_coordinates(points)),
                min_y: key_min(y_coordinates(points)),
                max_y: key_max(y_coordinates(points)),
            }),
        )
    }
}

/// Scans two equally long coordinate columns once, tracking the running
/// key-minimum and key-maximum of each.
fn coordinate_bounds(xs: &Vec<u64>, ys: &Vec<u64>) -> (r: Option<Bounds>)
    requires
        xs@.len() == ys@.len(),
    ensures
        r == (if xs@.len() == 0 {
            None::<Bounds>
        } else {
            Some(
                (Bounds {
                    min_x: key_min(xs@),
                    max_x: key_max(xs@),
                    min_y: key_min(ys@),
                    max_y: key_max(ys@),
                }),
            )
        }),
{
    if xs.len() == 0 {
        return None;
    }
    let mut min_x: u64 = xs[0];
    let mut max_x: u64 = xs[0];
    let mut min_y: u64 = ys[0];
    let mut max_y: u64 = ys[0];
    let mut i: usize = 1;
    while i < xs.len()
        invariant
            1 <= i <= xs@.len(),
            xs@.len() == ys@.len(),
            min_x == key_min(xs@.take(i as int)),
            max_x == key_max(xs@.take(i as int)),
            min_y == key_min(ys@.take(i as int)),
            max_y == key_max(ys@.take(i as int)),
        decreases xs@.len() - i,
    {
        proof {
            assert(xs@.take(i + 1).drop_last() =~= xs@.take(i as int));
            assert(ys@.take(i + 1).drop_last() =~= ys@.take(i as int));
            assert(xs@.take(i + 1).last() == xs@[i as int]);
            assert(ys@.take(i + 1).last() == ys@[i as int]);
        }
        if coordinate_lt(xs[i], min_x) {
            min_x = xs[i];
        }
        if coordinate_lt(max_x, xs[i]) {
            max_x = xs[i];
        }
        if coordinate_lt(ys[i], min_y) {
            min_y = ys[i];
        }
        if coordinate_lt(max_y, ys[i]) {
            max_y = ys[i];
        }
        i = i + 1;
    }
    proof {
        assert(xs@.take(xs@.len() as int) =~= xs@);
        assert(ys@.take(ys@.len() as int) =~= ys@);
    }
    Some(Bounds { min_x, max_x, min_y, max_y })
}

impl Bounds {
    /// The extent summary of a polygon ring, read off its raw coordinate
    /// pairs; absent when the ring is empty.
    pub fn from_polygon(ring: &Vec<(u64, u64)>) -> (r: Option<Bounds>)
        ensures
            r == polygon_bounds(ring@),
    {
        let mut xs: Vec<u64> = Vec::new();
        let mut ys: Vec<u64> = Vec::new();
        let mut i: usize = 0;
        while i < ring.len()
            invariant
                0 <= i <= ring@.len(),
                xs@ =~= first_coordinates(ring@).take(i as int),
                ys@ =~= second_coordinates(ring@).take(i as int),
            decreases ring@.len() - i,
        {
            xs.push(ring[i].0);
            ys.push(ring[i].1);
            i = i + 1;
        }
        proof {
            assert(xs@ =~= first_coordinates(ring@));
            assert(ys@ =~= second_coordinates(ring@));
        }
        coordinate_bounds(&xs, &ys)
    }

    /// The extent summary of a set of validated points; absent when the set
    /// is empty.
    pub fn from_point_set(points: &Vec<Point2D>) -> (r: Option<Bounds>)
        ensures
            r == point_set_bounds(points@),
    {
        let mut xs: Vec<u64> = Vec::new();
        let mut ys: Vec<u64> = Vec::new();
        let mut i: usize = 0;
        while i < points.len()
            invariant
                0 <= i <= points@.len(),
                xs@ =~= x_coordinates(points@).take(i as int),
                ys@ =~= y_coordinates(points@).take(i as int),
            decreases points@.len() - i,
        {
            xs.push(points[i].x);
            ys.push(points[i].y);
            i = i + 1;
        }
        proof {
            assert(xs@ =~= x_coordinates(points@));
            assert(ys@ =~= y_coordinates(points@));
        }
        coordinate_bounds(&xs, &ys)
    }

    /// The minimum x-coordinate of the bounding rectangle.
    pub fn min_x(&self) -> (r: u64)
        ensures
            r == self.min_x,
    {
        self.min_x
    }

    /// The maximum x-coordinate of the bounding rectangle.
    pub fn max_x(&self) -> (r: u64)
        ensures
            r == self.max_x,
    {
        self.max_x
    }

    /// The minimum y-coordinate of the bounding rectangle.
    pub fn min_y(&self) -> (r: u64)
        ensures
            r == self.min_y,
    {
        self.min_y
    }

    /// The maximum y-coordinate of the bounding rectangle.
    pub fn max_y(&self) -> (r: u64)
        ensures
            r == self.max_y,
    {
        self.max_y
    }
}

/// Both coordinates of a raw pair are usable.
pub open spec fn usable_pair(c: (u64, u64)) -> bool {
    is_usable_coordinate(c.0) && is_usable_coordinate(c.1)
}

/// The validated, deduplicated view of a raw coordinate list: unusable pairs
/// are dropped as noise, and of several occurrences of one bit pattern only
/// the first survives, so enumeration order is the order of first
/// appearance.
pub open spec fn unique_points(s: Seq<(u64, u64)>) -> Seq<Point2D>
    decreases s.len(),
{
    if s.len() == 0 {
        Seq::empty()
    } else {
        let prefix = unique_points(s.drop_last());
        let c = s.last();
        if usable_pair(c) && !prefix.contains((Point2D { x: c.0, y: c.1 })) {
            prefix.push((Point2D { x: c.0, y: c.1 }))
        } else {
            prefix
        }
    }
}

/// The raw coordinate pairs of a sequence of validated points.
pub open spec fn pairs_of_points(s: Seq<Point2D>) -> Seq<(u64, u64)> {
    s.map_values(|p: Point2D| (p.x, p.y))
}

/// The deduplicated view never repeats a point.
pub proof fn lemma_unique_points_distinct(s: Seq<(u64, u64)>)
    ensures
        forall|i: int, j: int|
            0 <= i < j < unique_points(s).len() ==> unique_points(s)[i] != unique_points(s)[j],
    decreases s.len(),
{
    if s.len() > 0 {
        lemma_unique_points_distinct(s.drop_last());
        let prefix = unique_points(s.drop_last());
        let c = s.last();
        if usable_pair(c) && !prefix.contains((Point2D { x: c.0, y: c.1 })) {
            assert(forall|i: int|
                0 <= i < prefix.len() ==> prefix[i] != (Point2D { x: c.0, y: c.1 })) by {
                assert(forall|i: int|
                    0 <= i < prefix.len() ==> prefix.contains(#[trigger] prefix[i]));
            }
        }
    }
}

/// A point stands in the deduplicated view exactly when it is usable and its
/// coordinates stand somewhere in the raw list.
pub proof fn lemma_unique_points_membership(s: Seq<(u64, u64)>, p: Point2D)
    ensures
        unique_points(s).contains(p) <==> (usable_pair((p.x, p.y)) && s.contains(((p.x, p.y)))),
    decreases s.len(),
{
    if s.len() > 0 {
        lemma_unique_points_membership(s.drop_last(), p);
        let prefix = unique_points(s.drop_last());
        let c = s.last();
        assert(s.drop_last().contains((p.x, p.y)) ==> s.contains((p.x, p.y)));
        assert(s.last() == s[s.len() - 1]);
        if unique_points(s).contains(p) {
            if usable_pair(c) && !prefix.contains((Point2D { x: c.0, y: c.1 })) {
                let i = choose|i: int|
                    0 <= i < unique_points(s).len() && unique_points(s)[i] == p;
                if i < prefix.len() {
                    assert(prefix.contains(p));
                } else {
                    assert(p == (Point2D { x: c.0, y: c.1 }));
                }
            }
        }
        if usable_pair((p.x, p.y)) && s.contains((p.x, p.y)) {
            let i = choose|i: int| 0 <= i < s.len() && s[i] == (p.x, p.y);
            if i < s.len() - 1 {
                assert(s.drop_last()[i] == (p.x, p.y));
                assert(s.drop_last().contains((p.x, p.y)));
                assert(prefix.contains(p));
                if usable_pair(c) && !prefix.contains((Point2D { x: c.0, y: c.1 })) {
                    assert(unique_points(s) == prefix.push((Point2D { x: c.0, y: c.1 })));
                    let j = choose|j: int| 0 <= j < prefix.len() && prefix[j] == p;
                    assert(unique_points(s)[j] == p);
                    assert(unique_points(s).contains(p));
                }
            } else {
                assert(c == (p.x, p.y));
                assert(p == (Point2D { x: c.0, y: c.1 }));
                if !prefix.contains(p) {
                    assert(unique_points(s).last() == p);
                    assert(unique_points(s).contains(p));
                }
            }
        }
    }
}

/// The user-supplied bounding silhouette: an ordered ring of at least three
/// raw coordinate pairs, conventionally closed by repeating the first
/// vertex.  It may be non-convex; no self-intersection check is made here.
#[derive(Clone, Debug, PartialEq)]
pub struct BoundaryPolygon {
    /// The ordered vertices of the ring.
    pub ring: Vec<(u64, u64)>,
}

impl BoundaryPolygon {
    /// A well-formed ring has at least three vertices.
    pub open spec fn wf(&self) -> bool {
        self.ring@.len() >= 3
    }

    /// The ordered vertices of the ring.
    pub fn ring(&self) -> (r: &Vec<(u64, u64)>)
        ensures
            r@ == self.ring@,
    {
        &self.ring
    }
}

/// Decides whether a point stands in a list.
fn contains_point(points: &Vec<Point2D>, p: Point2D) -> (r: bool)
    ensures
        r == points@.contains(p),
{
    let mut i: usize = 0;
    while i < points.len()
        invariant
            0 <= i <= points@.len(),
            forall|j: int| 0 <= j < i ==> points@[j] != p,
        decreases points@.len() - i,
    {
        if points[i].x == p.x && points[i].y == p.y {
            assert(points@.contains(p)) by {
                assert(points@[i as int] == p);
            }
            return true;
        }
        i = i + 1;
    }
    false
}

/// A raw input record: a point list that may hold duplicates and unusable
/// coordinates, together with a raw boundary ring.  Validation happens in
/// the accessors, never at construction.
#[derive(Clone, Debug, PartialEq)]
pub struct BoundedPointSet {
    /// The raw list of point coordinate pairs.
    pub point_set: Vec<(u64, u64)>,
    /// The raw boundary ring.
    pub bound: Vec<(u64, u64)>,
}

impl BoundedPointSet {
    /// Packs a raw point list and a raw boundary ring.
    pub fn new(point_set: Vec<(u64, u64)>, bound: Vec<(u64, u64)>) -> (r: BoundedPointSet)
        ensures
            r.point_set@ == point_set@,
            r.bound@ == bound@,
    {
        BoundedPointSet { point_set, bound }
    }

    /// The raw boundary ring.
    pub fn bound(&self) -> (r: &Vec<(u64, u64)>)
        ensures
            r@ == self.bound@,
    {
        &self.bound
    }

    /// The bounding polygon, or `InsufficientBoundaryPoints` exactly when
    /// the ring has fewer than three points.  Three or more points pass,
    /// even collinear ones; closure and self-intersection are not checked.
    pub fn bounding_polygon(&self) -> (r: Result<BoundaryPolygon, crate::errors::GeometryError>)
        ensures
            r is Err <==> self.bound@.len() < 3,
            r matches Err(e) ==> e == crate::errors::GeometryError::InsufficientBoundaryPoints,
            r matches Ok(p) ==> p.ring@ == self.bound@ && p.wf(),
    {
        if self.bound.len() < 3 {
            Err(crate::errors::GeometryError::InsufficientBoundaryPoints)
        } else {
            let mut ring: Vec<(u64, u64)> = Vec::new();
            let mut i: usize = 0;
            while i < self.bound.len()
                invariant
                    0 <= i <= self.bound@.len(),
                    ring@ =~= self.bound@.take(i as int),
                decreases self.bound@.len() - i,
            {
                ring.push(self.bound[i]);
                i = i + 1;
            }
            proof {
                assert(ring@ =~= self.bound@);
            }
            Ok(BoundaryPolygon { ring })
        }
    }

    /// The deduplicated set of validated points, enumerated in order of
    /// first appearance.  Unusable coordinate pairs are dropped silently:
    /// they are noise to discard, not an input error.
    pub fn point_set(&self) -> (r: Vec<Point2D>)
        ensures
            r@ == unique_points(self.point_set@),
    {
        let mut out: Vec<Point2D> = Vec::new();
        let mut i: usize = 0;
        while i < self.point_set.len()
            invariant
                0 <= i <= self.point_set@.len(),
                out@ == unique_points(self.point_set@.take(i as int)),
            decreases self.point_set@.len() - i,
        {
            proof {
                assert(self.point_set@.take(i + 1).drop_last() =~= self.point_set@.take(i as int));
                assert(self.point_set@.take(i + 1).last() == self.point_set@[i as int]);
            }
            let pair: (u64, u64) = self.point_set[i];
            match Point2D::new(pair.0, pair.1) {
                Some(p) => {
                    if !contains_point(&out, p) {
                        out.push(p);
                    }
                },
                None => {},
            }
            i = i + 1;
        }
        proof {
            assert(self.point_set@.take(self.point_set@.len() as int) =~= self.point_set@);
        }
        out
    }

    /// The deduplicated point set as raw coordinate pairs, one per unique
    /// point and in the same order, ready for the tessellation engine.
    pub fn voronoi_point_set(&self) -> (r: Vec<(u64, u64)>)
        ensures
            r@ == pairs_of_points(unique_points(self.point_set@)),
    {
        let points = self.point_set();
        let mut out: Vec<(u64, u64)> = Vec::new();
        let mut i: usize = 0;
        while i < points.len()
            invariant
                0 <= i <= points@.len(),
                points@ == unique_points(self.point_set@),
                out@ =~= pairs_of_points(points@).take(i as int),
            decreases points@.len() - i,
        {
            out.push((points[i].x, points[i].y));
            i = i + 1;
        }
        proof {
            assert(out@ =~= pairs_of_points(unique_points(self.point_set@)));
        }
        out
    }
}

/// Extent invariant: for any non-empty point set the summary orders the
/// minimum at or below the maximum on both axes, so the width and height of
/// the bounding rectangle are never negative.
pub proof fn lemma_point_set_bounds_ordered(points: Seq<Point2D>)
    requires
        points.len() > 0,
    ensures
        point_set_bounds(points) matches Some(b) && order_key(b.min_x) <= order_key(b.max_x)
            && order_key(b.min_y) <= order_key(b.max_y),
{
    let b = point_set_bounds(points).unwrap();
    lemma_key_min_properties(x_coordinates(points));
    lemma_key_max_properties(x_coordinates(points));
    lemma_key_min_properties(y_coordinates(points));
    lemma_key_max_properties(y_coordinates(points));
    let xi = choose|i: int|
        0 <= i < x_coordinates(points).len() && x_coordinates(points)[i] == key_max(
            x_coordinates(points),
        );
    assert(order_key(b.min_x) <= order_key(x_coordinates(points)[xi]));
    let yi = choose|i: int|
        0 <= i < y_coordinates(points).len() && y_coordinates(points)[i] == key_max(
            y_coordinates(points),
        );
    assert(order_key(b.min_y) <= order_key(y_coordinates(points)[yi]));
}

} // verus!
