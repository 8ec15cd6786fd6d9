use vstd::prelude::*;

use crate::style::Stroke;

verus! {

/// An SDO_GEOMETRY record as received from the geometry backend: a
/// (truncated) type code, optional spatial-reference and point fields that the
/// shape logic never reads, the element-info triplets that say how the
/// ordinates are grouped, and the flat ordinate array itself, interleaved as
/// x, y, x, y, ...
///
/// Ordinates are kept as plain 64-bit integers; whatever fractional unit the
/// display layer works in, it owns the conversion in both directions.
#[derive(Clone, PartialEq, Debug)]
pub struct SdoGeometry {
    pub sdo_gtype: i64,
    pub sdo_srid: Option<i64>,
    pub sdo_point: Option<i64>,
    pub sdo_elem_info: Vec<i64>,
    pub sdo_ordinates: Vec<i64>,
}

/// The shape family a record encodes, decided by type code and element info
/// alone.
#[derive(Clone, Copy, PartialEq, Eq, Structural, Debug)]
pub enum ShapeKind {
    Polygon,
    Circle,
    Line,
    Unknown,
}

/// The one way the shape builders themselves can fail: a circle record whose
/// ordinate array is too short to hold the bounding diagonal.
#[derive(Clone, Copy, PartialEq, Eq, Structural, Debug)]
pub enum ShapeError {
    OutOfRange,
}

/// The element-info pattern of a simple polygon ring.
pub open spec fn polygon_info() -> Seq<i64> {
    seq![1i64, 3i64, 1i64]
}

/// The element-info pattern of a circle given by a bounding diagonal.
pub open spec fn circle_info() -> Seq<i64> {
    seq![1i64, 1003i64, 4i64]
}

/// The element-info pattern of a simple line string.
pub open spec fn line_info() -> Seq<i64> {
    seq![1i64, 2i64, 1i64]
}

/// The flat ordinate sequence paired two at a time, in order; a dangling
/// final value is dropped.
pub open spec fn pairs_spec(ords: Seq<i64>) -> Seq<(i64, i64)> {
    Seq::new(ords.len() / 2, |i: int| (ords[2 * i], ords[2 * i + 1]))
}

/// The points of a shape flattened back into one ordinate sequence,
/// x, y, x, y, ...
pub open spec fn flatten_points(ps: Seq<(i64, i64)>) -> Seq<i64> {
    Seq::new(2 * ps.len(), |i: int| if i % 2 == 0 { ps[i / 2].0 } else { ps[i / 2].1 })
}

/// A closed ring, drawn with the given stroke and never filled.
#[derive(Clone, PartialEq, Debug)]
pub struct Polygon {
    pub points: Vec<(i64, i64)>,
    pub stroke: Stroke,
    /// Always true: the plotting layer cannot fill concave rings correctly,
    /// so the builder disables filling regardless of what a caller intends.
    pub fill_transparent: bool,
}

/// A circle described by its centre and diameter. Centre coordinates are
/// stored doubled so that they stay exact integers even when the diameter is
/// odd; the diameter is twice the radius. The display layer draws the circle
/// as a closed perimeter sampled at 512 evenly spaced angles (513 points,
/// first equal to last).
#[derive(Clone, PartialEq, Debug)]
pub struct Circle {
    /// Twice the centre's x coordinate: twice the first x ordinate plus the
    /// diameter.
    pub center_x_twice: i128,
    /// Twice the centre's y coordinate: twice the first y ordinate minus the
    /// diameter. The minus is the encoding's own convention and is kept
    /// exactly as it is, asymmetric as it looks.
    pub center_y_twice: i128,
    /// Second x ordinate minus first x ordinate.
    pub diameter: i128,
    pub stroke: Stroke,
}

/// An open polyline, in ordinate order, with no closing segment.
#[derive(Clone, PartialEq, Debug)]
pub struct Line {
    pub points: Vec<(i64, i64)>,
    pub stroke: Stroke,
}

/// Any drawable primitive a record can produce.
#[derive(Clone, PartialEq, Debug)]
pub enum Shape {
    Polygon(Polygon),
    Circle(Circle),
    Line(Line),
}

/// Collects the leading items of `v` into a fixed-length array, padding with
/// `fill` when `v` has fewer than `N` items; items past the first `N` are
/// ignored.
pub fn collect_array<T: Copy, const N: usize>(v: &Vec<T>, fill: T) -> (r: [T; N])
    ensures
        forall|i: int| 0 <= i < N ==> r@[i] == (if i < v@.len() { v@[i] } else { fill }),
{
    let mut r: [T; N] = [fill; N];
    let mut i: usize = 0;
    while i < N && i < v.len()
        invariant
            i <= N,
            i <= v@.len(),
            forall|j: int| 0 <= j < i ==> r@[j] == v@[j],
            forall|j: int| i <= j < N ==> r@[j] == fill,
        decreases N - i,
    {
        r[i] = v[i];
        i += 1;
    }
    r
}

impl SdoGeometry {
    /// A record encodes a polygon when its type code is 2003 and its element
    /// info is exactly [1, 3, 1].
    pub open spec fn is_polygon_spec(&self) -> bool {
        self.sdo_gtype == 2003 && self.sdo_elem_info@ == polygon_info()
    }

    /// A record encodes a circle when its type code is 2003 and its element
    /// info is exactly [1, 1003, 4].
    pub open spec fn is_circle_spec(&self) -> bool {
        self.sdo_gtype == 2003 && self.sdo_elem_info@ == circle_info()
    }

    /// A record encodes a line string when its type code is 2002 and its
    /// element info is exactly [1, 2, 1].
    pub open spec fn is_line_spec(&self) -> bool {
        self.sdo_gtype == 2002 && self.sdo_elem_info@ == line_info()
    }

    /// Classification reads the type code and element info only, never the
    /// ordinates.
    pub open spec fn classify_spec(&self) -> ShapeKind {
        if self.is_polygon_spec() {
            ShapeKind::Polygon
        } else if self.is_circle_spec() {
            ShapeKind::Circle
        } else if self.is_line_spec() {
            ShapeKind::Line
        } else {
            ShapeKind::Unknown
        }
    }

    pub fn is_polygon(&self) -> (b: bool)
        ensures
            b == self.is_polygon_spec(),
    {
        let b = self.sdo_gtype == 2003 && self.sdo_elem_info.len() == 3
            && self.sdo_elem_info[0] == 1 && self.sdo_elem_info[1] == 3
            && self.sdo_elem_info[2] == 1;
        proof {
            if b {
                assert(self.sdo_elem_info@ =~= polygon_info());
            }
        }
        b
    }

    pub fn is_circle(&self) -> (b: bool)
        ensures
            b == self.is_circle_spec(),
    {
        let b = self.sdo_gtype == 2003 && self.sdo_elem_info.len() == 3
            && self.sdo_elem_info[0] == 1 && self.sdo_elem_info[1] == 1003
            && self.sdo_elem_info[2] == 4;
        proof {
            if b {
                assert(self.sdo_elem_info@ =~= circle_info());
            }
        }
        b
    }

    pub fn is_line(&self) -> (b: bool)
        ensures
            b == self.is_line_spec(),
    {
        let b = self.sdo_gtype == 2002 && self.sdo_elem_info.len() == 3
            && self.sdo_elem_info[0] == 1 && self.sdo_elem_info[1] == 2
            && self.sdo_elem_info[2] == 1;
        proof {
            if b {
                assert(self.sdo_elem_info@ =~= line_info());
            }
        }
        b
    }

    /// Decides which shape family the record encodes; an unrecognized pattern
    /// is not an error, merely nothing to draw.
    pub fn classify(&self) -> (k: ShapeKind)
        ensures
            k == self.classify_spec(),
    {
        if self.is_polygon() {
            ShapeKind::Polygon
        } else if self.is_circle() {
            ShapeKind::Circle
        } else if self.is_line() {
            ShapeKind::Line
        } else {
            ShapeKind::Unknown
        }
    }

    /// Pairs the flat ordinates two at a time, in order, dropping a dangling
    /// final value.
    pub fn create_coordinates(&self) -> (points: Vec<(i64, i64)>)
        ensures
            points@ == pairs_spec(self.sdo_ordinates@),
    {
        let n = self.sdo_ordinates.len() / 2;
        let mut points: Vec<(i64, i64)> = Vec::new();
        let mut k: usize = 0;
        while k < n
            invariant
                n == self.sdo_ordinates@.len() / 2,
                self.sdo_ordinates@.len() <= usize::MAX,
                k <= n,
                points@.len() == k,
                forall|j: int| 0 <= j < k ==> points@[j] == (
                    self.sdo_ordinates@[2 * j],
                    self.sdo_ordinates@[2 * j + 1],
                ),
            decreases n - k,
        {
            let x = self.sdo_ordinates[2 * k];
            let y = self.sdo_ordinates[2 * k + 1];
            points.push((x, y));
            k += 1;
        }
        proof {
            assert(points@ =~= pairs_spec(self.sdo_ordinates@));
        }
        points
    }

    /// Builds the closed polygon ring, or nothing when the record is not
    /// classified as a polygon; the ring is always rendered unfilled.
    pub fn create_polygon(&self, stroke: Stroke) -> (r: Option<Polygon>)
        ensures
            r is Some <==> self.is_polygon_spec(),
            r matches Some(p) ==> {
                &&& p.points@ == pairs_spec(self.sdo_ordinates@)
                &&& p.stroke == stroke
                &&& p.fill_transparent
            },
    {
        if !self.is_polygon() {
            return None;
        }
        let points = self.create_coordinates();
        Some(Polygon { points, stroke, fill_transparent: true })
    }

    /// Builds the circle from the bounding-diagonal encoding: the radius is
    /// half the difference of the second and first x ordinates, the centre is
    /// the first point moved by the radius, right in x and down in y. Yields
    /// `OutOfRange` instead of a circle when fewer than three ordinates are
    /// present, and nothing when the record is not classified as a circle.
    pub fn create_circle(&self, stroke: Stroke) -> (r: Result<Option<Circle>, ShapeError>)
        ensures
            r matches Ok(Some(c)) ==> {
                &&& c.diameter == self.sdo_ordinates@[2] - self.sdo_ordinates@[0]
                &&& c.center_x_twice == 2 * self.sdo_ordinates@[0] + c.diameter
                &&& c.center_y_twice == 2 * self.sdo_ordinates@[1] - c.diameter
                &&& c.stroke == stroke
            },
            (r matches Ok(Some(c))) <==> (self.is_circle_spec() && self.sdo_ordinates@.len() >= 3),
            r is Err <==> (self.is_circle_spec() && self.sdo_ordinates@.len() < 3),
            r matches Err(e) ==> e == ShapeError::OutOfRange,
    {
        if !self.is_circle() {
            return Ok(None);
        }
        if self.sdo_ordinates.len() < 3 {
            return Err(ShapeError::OutOfRange);
        }
        let x0 = self.sdo_ordinates[0] as i128;
        let y0 = self.sdo_ordinates[1] as i128;
        let x1 = self.sdo_ordinates[2] as i128;
        let diameter = x1 - x0;
        Ok(Some(Circle {
            center_x_twice: 2 * x0 + diameter,
            center_y_twice: 2 * y0 - diameter,
            diameter,
            stroke,
        }))
    }

    /// Builds the open polyline, or nothing when the record is not classified
    /// as a line string.
    pub fn create_line(&self, stroke: Stroke) -> (r: Option<Line>)
        ensures
            r is Some <==> self.is_line_spec(),
            r matches Some(l) ==> {
                &&& l.points@ == pairs_spec(self.sdo_ordinates@)
                &&& l.stroke == stroke
            },
    {
        if !self.is_line() {
            return None;
        }
        let points = self.create_coordinates();
        Some(Line { points, stroke })
    }

    /// Classifies the record and builds its drawable primitive: nothing for
    /// an unrecognized pattern, `OutOfRange` for a circle record with too few
    /// ordinates, and the built shape otherwise.
    pub fn create_shape(&self, stroke: Stroke) -> (r: Result<Option<Shape>, ShapeError>)
        ensures
            self.classify_spec() is Polygon ==> (r matches Ok(Some(s)) && (s matches Shape::Polygon(p) && {
                &&& p.points@ == pairs_spec(self.sdo_ordinates@)
                &&& p.stroke == stroke
                &&& p.fill_transparent
            })),
            self.classify_spec() is Circle && self.sdo_ordinates@.len() >= 3 ==> (
                r matches Ok(Some(s)) && (s matches Shape::Circle(c) && {
                    &&& c.diameter == self.sdo_ordinates@[2] - self.sdo_ordinates@[0]
                    &&& c.center_x_twice == 2 * self.sdo_ordinates@[0] + c.diameter
                    &&& c.center_y_twice == 2 * self.sdo_ordinates@[1] - c.diameter
                    &&& c.stroke == stroke
                })),
            self.classify_spec() is Circle && self.sdo_ordinates@.len() < 3 ==> (
                r matches Err(e) && e == ShapeError::OutOfRange),
            self.classify_spec() is Line ==> (r matches Ok(Some(s)) && (s matches Shape::Line(l) && {
                &&& l.points@ == pairs_spec(self.sdo_ordinates@)
                &&& l.stroke == stroke
            })),
            self.classify_spec() is Unknown ==> r matches Ok(None),
            r is Err <==> (self.is_circle_spec() && self.sdo_ordinates@.len() < 3),
    {
        proof {
            lemma_classifications_exclusive(self);
        }
        if let Some(p) = self.create_polygon(stroke) {
            return Ok(Some(Shape::Polygon(p)));
        }
        match self.create_circle(stroke) {
            Err(e) => {
                return Err(e);
            },
            Ok(Some(c)) => {
                return Ok(Some(Shape::Circle(c)));
            },
            Ok(None) => {},
        }
        if let Some(l) = self.create_line(stroke) {
            return Ok(Some(Shape::Line(l)));
        }
        Ok(None)
    }
}

/// The three recognized patterns do not overlap: a record matches at most one
/// classification, so `classify` agrees with each predicate separately.
pub proof fn lemma_classifications_exclusive(g: &SdoGeometry)
    ensures
        !(g.is_polygon_spec() && g.is_circle_spec()),
        !(g.is_polygon_spec() && g.is_line_spec()),
        !(g.is_circle_spec() && g.is_line_spec()),
        g.classify_spec() is Polygon <==> g.is_polygon_spec(),
        g.classify_spec() is Circle <==> g.is_circle_spec(),
        g.classify_spec() is Line <==> g.is_line_spec(),
{
    if g.is_polygon_spec() && g.is_circle_spec() {
        assert(g.sdo_elem_info@[1] == polygon_info()[1]);
        assert(g.sdo_elem_info@[1] == circle_info()[1]);
    }
}

/// A record is classified as a polygon exactly when its type code is 2003 and
/// its element info is exactly the sequence [1, 3, 1]; a difference in any
/// single position (or in the type code) defeats the match.
pub proof fn lemma_polygon_classification(g: &SdoGeometry)
    ensures
        g.classify_spec() is Polygon <==> (g.sdo_gtype == 2003 && g.sdo_elem_info@ =~= polygon_info()),
        g.sdo_elem_info@.len() != 3 ==> !(g.classify_spec() is Polygon),
        forall|i: int|
            0 <= i < 3 && g.sdo_elem_info@.len() == 3 && g.sdo_elem_info@[i] != polygon_info()[i]
                ==> !(g.classify_spec() is Polygon),
{
    lemma_classifications_exclusive(g);
}

/// Classification is a pure function of the type code and the element info:
/// it never inspects the ordinates, the spatial-reference id or the point
/// field.
pub proof fn lemma_classification_ignores_ordinates(a: &SdoGeometry, b: &SdoGeometry)
    requires
        a.sdo_gtype == b.sdo_gtype,
        a.sdo_elem_info@ == b.sdo_elem_info@,
    ensures
        a.classify_spec() == b.classify_spec(),
{
}

/// Pairing loses nothing but a dangling final ordinate: flattening the
/// extracted points gives back the even-length prefix of the ordinates, and
/// re-pairing what was flattened reproduces the same points exactly.
pub proof fn lemma_pairs_round_trip(ords: Seq<i64>)
    ensures
        flatten_points(pairs_spec(ords)) == ords.take(2 * (ords.len() as int / 2)),
        pairs_spec(flatten_points(pairs_spec(ords))) == pairs_spec(ords),
{
    assert(flatten_points(pairs_spec(ords)) =~= ords.take(2 * (ords.len() as int / 2)));
    assert(pairs_spec(flatten_points(pairs_spec(ords))) =~= pairs_spec(ords));
}

/// Building a line is deterministic and lossless: from a line-classified
/// record any build's points are exactly the pairing of the record's
/// ordinates, so two builds agree and re-extracting the points reproduces the
/// original pairing.
pub proof fn lemma_line_round_trip(g: &SdoGeometry, l1: &Line, l2: &Line)
    requires
        g.is_line_spec(),
        l1.points@ == pairs_spec(g.sdo_ordinates@),
        l2.points@ == pairs_spec(g.sdo_ordinates@),
    ensures
        l1.points@ == l2.points@,
        pairs_spec(flatten_points(l1.points@)) == l1.points@,
{
    lemma_pairs_round_trip(g.sdo_ordinates@);
}

} // verus!
