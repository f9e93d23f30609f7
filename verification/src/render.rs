//! The primitive renderer: the drawing-backend contract bound to one target
//! region. Every operation transforms its inputs through the coordinate
//! transform and returns the sequence of canvas-native primitives to emit,
//! in emission order; the unverified rim forwards each primitive to the
//! terminal canvas unchanged.

use vstd::prelude::*;

use crate::sqrt::isqrt;
use crate::sqrt::lemma_sqrt_floor_bounds;
use crate::sqrt::sqrt_floor;
use crate::transform::addressable_size;
use crate::transform::norm_spec;
use crate::transform::to_normalized;
use crate::transform::NormCoord;
use crate::transform::Region;
use crate::transform::CELL_PIXEL_HEIGHT;
use crate::transform::CELL_PIXEL_WIDTH;
use vstd::string::StrSliceExecFns;
use vstd::string::StringExecFns;

verus! {

/// An RGB color triple. The engine also supplies an alpha channel, but the
/// conversion into the canvas's native color is channel-wise on the three
/// color channels alone, so alpha is dropped at the boundary.
#[derive(Clone, Copy, PartialEq, Eq, Structural, Debug)]
pub struct Color {
    pub r: u8,
    pub g: u8,
    pub b: u8,
}

/// The error kind reserved by the drawing-backend contract. This layer
/// cannot produce a domain error: every operation resolves to success, and
/// each contract below pins its result to `Ok`. The verifier does not
/// accept a datatype with no variants, so one vestigial variant stands in;
/// nothing ever constructs it.
#[derive(Clone, Copy, PartialEq, Eq, Debug)]
pub enum Error {
    Unreachable,
}

/// One canvas-native primitive, the unit of emission toward the terminal
/// canvas. Coordinates are in the canvas's normalized space.
#[derive(PartialEq, Debug)]
pub enum Primitive {
    /// A single point.
    Point { pos: NormCoord, color: Color },
    /// A straight segment between two points.
    Line { a: NormCoord, b: NormCoord, color: Color },
    /// A circle outline; the radius is passed through in the engine's pixel
    /// units, untransformed, as the canvas contract expects it.
    Circle { center: NormCoord, radius: u32, color: Color },
    /// An axis-aligned rectangle outline. `corner` is the corner with the
    /// least normalized coordinates on both axes; the extents share its
    /// denominators: the rectangle spans `width_num / corner.x_den`
    /// horizontally and `height_num / corner.y_den` vertically.
    Rect { corner: NormCoord, width_num: i64, height_num: i64, color: Color },
    /// A styled text run, anchored at `pos`.
    Text { pos: NormCoord, content: String, color: Color },
}

/// Whether `p` is a text run at `pos` with content `s` and color `col`.
pub open spec fn is_text_primitive(p: Primitive, pos: NormCoord, s: Seq<char>, col: Color) -> bool {
    match p {
        Primitive::Text { pos: q, content, color } => q == pos && content@ == s && color == col,
        _ => false,
    }
}

/// Horizontal shift applied to a text anchor so that a run of `n` glyphs is
/// centered on the anchor instead of starting at it.
pub open spec fn text_shift(n: nat) -> int {
    n * (CELL_PIXEL_WIDTH as int) / 2
}

/// Half-width of the fill-sweep line of a filled circle of radius `radius`
/// at row index `i` (row offset `dy = i - radius`, running over
/// `[-radius, radius]`): the floor of `sqrt(radius^2 - dy^2)`.
pub open spec fn circle_row_halfwidth(radius: u32, i: int) -> int {
    let dy = i - radius;
    sqrt_floor((radius * radius - dy * dy) as nat) as int
}

/// The fill-sweep line of a filled circle at row index `i`: a horizontal
/// segment centered on `center.0`, on pixel row `center.1 + dy`.
pub open spec fn circle_row(
    center: (i32, i32),
    radius: u32,
    color: Color,
    region: Region,
    i: int,
) -> Primitive {
    let dy = i - radius;
    let hw = circle_row_halfwidth(radius, i);
    Primitive::Line {
        a: norm_spec(center.0 - hw, center.1 + dy, region),
        b: norm_spec(center.0 + hw, center.1 + dy, region),
        color,
    }
}

/// Everything a circle-draw call emits: one canvas circle outline when
/// unfilled, or the stack of `2 * radius + 1` horizontal fill-sweep lines
/// when filled, ordered from the top row offset `-radius` down to `radius`.
pub open spec fn circle_primitives(
    center: (i32, i32),
    radius: u32,
    color: Color,
    fill: bool,
    region: Region,
) -> Seq<Primitive> {
    if fill {
        Seq::new((2 * radius + 1) as nat, |i: int| circle_row(center, radius, color, region, i))
    } else {
        seq![
            Primitive::Circle {
                center: norm_spec(center.0 as int, center.1 as int, region),
                radius,
                color,
            },
        ]
    }
}

/// Least x over the two corners of a rectangle-draw call.
pub open spec fn rect_xmin(c1: (i32, i32), c2: (i32, i32)) -> int {
    if c1.0 <= c2.0 {
        c1.0 as int
    } else {
        c2.0 as int
    }
}

/// Greatest x over the two corners of a rectangle-draw call.
pub open spec fn rect_xmax(c1: (i32, i32), c2: (i32, i32)) -> int {
    if c1.0 <= c2.0 {
        c2.0 as int
    } else {
        c1.0 as int
    }
}

/// Least y over the two corners of a rectangle-draw call.
pub open spec fn rect_ymin(c1: (i32, i32), c2: (i32, i32)) -> int {
    if c1.1 <= c2.1 {
        c1.1 as int
    } else {
        c2.1 as int
    }
}

/// Greatest y over the two corners of a rectangle-draw call.
pub open spec fn rect_ymax(c1: (i32, i32), c2: (i32, i32)) -> int {
    if c1.1 <= c2.1 {
        c2.1 as int
    } else {
        c1.1 as int
    }
}

/// The canvas rectangle outline for a rectangle-draw call: corners
/// normalized per axis to (min, max) first, so the input corner order is
/// insignificant. The normalized-space corner with the least coordinates on
/// both axes is the transform of (least pixel x, greatest pixel y), the
/// y-flip reversing the vertical order.
pub open spec fn rect_outline(
    c1: (i32, i32),
    c2: (i32, i32),
    color: Color,
    region: Region,
) -> Primitive {
    Primitive::Rect {
        corner: norm_spec(rect_xmin(c1, c2), rect_ymax(c1, c2), region),
        width_num: (rect_xmax(c1, c2) - rect_xmin(c1, c2)) as i64,
        height_num: (rect_ymax(c1, c2) - rect_ymin(c1, c2)) as i64,
        color,
    }
}

/// The fill-sweep line of a filled rectangle at column index `i`: a
/// vertical segment on pixel column `xmin + i`, from the least to the
/// greatest pixel y of the two corners.
pub open spec fn rect_column_line(
    c1: (i32, i32),
    c2: (i32, i32),
    color: Color,
    region: Region,
    i: int,
) -> Primitive {
    let x = rect_xmin(c1, c2) + i;
    Primitive::Line {
        a: norm_spec(x, rect_ymin(c1, c2), region),
        b: norm_spec(x, rect_ymax(c1, c2), region),
        color,
    }
}

/// Everything a rectangle-draw call emits: one canvas rectangle outline
/// when unfilled, or one vertical fill-sweep line per integer x column in
/// `[xmin, xmax]` inclusive when filled, in increasing column order.
pub open spec fn rect_primitives(
    c1: (i32, i32),
    c2: (i32, i32),
    color: Color,
    fill: bool,
    region: Region,
) -> Seq<Primitive> {
    if fill {
        Seq::new(
            (rect_xmax(c1, c2) - rect_xmin(c1, c2) + 1) as nat,
            |i: int| rect_column_line(c1, c2, color, region, i),
        )
    } else {
        seq![rect_outline(c1, c2, color, region)]
    }
}

/// The adapter object implementing the drawing-backend contract against one
/// bound region. Stateless apart from the region, so one instance can serve
/// several render passes over the same area.
pub struct PrimitiveRenderer {
    pub region: Region,
}

impl PrimitiveRenderer {
    /// Binds a renderer to `region`. A zero-sized region is rejected: the
    /// coordinate transform would divide by zero, and a render pass never
    /// legitimately begins on one.
    pub fn new(region: Region) -> (r: Option<PrimitiveRenderer>)
        ensures
            region.is_drawable() ==> r == Some(PrimitiveRenderer { region }),
            !region.is_drawable() ==> r is None,
    {
        if region.width > 0 && region.height > 0 {
            Some(PrimitiveRenderer { region })
        } else {
            None
        }
    }

    /// Size query: the addressable virtual-pixel size of the bound region.
    /// No side effects.
    pub fn get_size(&self) -> (r: (u32, u32))
        ensures
            r.0 == self.region.spec_pixel_width(),
            r.1 == self.region.spec_pixel_height(),
    {
        addressable_size(&self.region)
    }

    /// Lifecycle hook called before a render pass; a no-op that always
    /// succeeds.
    pub fn ensure_prepared(&self) -> (r: Result<(), Error>)
        ensures
            r is Ok,
    {
        Ok(())
    }

    /// Lifecycle hook called after a render pass; a no-op that always
    /// succeeds.
    pub fn present(&self) -> (r: Result<(), Error>)
        ensures
            r is Ok,
    {
        Ok(())
    }

    /// Draws one pixel: emits a single point at the transformed coordinate.
    pub fn draw_pixel(&self, coord: (i32, i32), color: Color) -> (r: Vec<Primitive>)
        requires
            self.region.is_drawable(),
        ensures
            r@ =~= seq![
                Primitive::Point {
                    pos: norm_spec(coord.0 as int, coord.1 as int, self.region),
                    color,
                },
            ],
    {
        let pos = to_normalized(coord.0 as i64, coord.1 as i64, &self.region);
        let mut out: Vec<Primitive> = Vec::new();
        out.push(Primitive::Point { pos, color });
        out
    }

    /// Draws a straight segment between the two transformed endpoints. No
    /// clipping: out-of-bounds endpoints are passed through, and the canvas
    /// is responsible for clipping them.
    pub fn draw_line(&self, coord1: (i32, i32), coord2: (i32, i32), color: Color) -> (r: Vec<
        Primitive,
    >)
        requires
            self.region.is_drawable(),
        ensures
            r@ =~= seq![
                Primitive::Line {
                    a: norm_spec(coord1.0 as int, coord1.1 as int, self.region),
                    b: norm_spec(coord2.0 as int, coord2.1 as int, self.region),
                    color,
                },
            ],
    {
        let a = to_normalized(coord1.0 as i64, coord1.1 as i64, &self.region);
        let b = to_normalized(coord2.0 as i64, coord2.1 as i64, &self.region);
        let mut out: Vec<Primitive> = Vec::new();
        out.push(Primitive::Line { a, b, color });
        out
    }

    /// Draws a circle of `radius` virtual pixels around the transformed
    /// center. Unfilled, it is one canvas circle outline, the radius passed
    /// through untransformed. Filled, it is rasterized as a stack of
    /// horizontal lines, one per integer row offset in
    /// `[-radius, radius]`, each spanning the floor-square-root half-width
    /// for its row; the fill resolution equals the pixel grid resolution,
    /// so jagged edges at low radius are expected.
    pub fn draw_circle(&self, center: (i32, i32), radius: u32, color: Color, fill: bool) -> (r:
        Vec<Primitive>)
        requires
            self.region.is_drawable(),
            fill ==> 2 * (radius as int) + 1 <= usize::MAX as int,
        ensures
            r@ =~= circle_primitives(center, radius, color, fill, self.region),
    {
        let mut out: Vec<Primitive> = Vec::new();
        if !fill {
            let pos = to_normalized(center.0 as i64, center.1 as i64, &self.region);
            out.push(Primitive::Circle { center: pos, radius, color });
            return out;
        }
        let rows: usize = (2 * (radius as u64) + 1) as usize;
        let r64: u64 = radius as u64;
        let cx: i64 = center.0 as i64;
        let cy: i64 = center.1 as i64;
        let mut i: usize = 0;
        while i < rows
            invariant
                self.region.is_drawable(),
                rows == 2 * (radius as int) + 1,
                r64 == radius,
                cx == center.0,
                cy == center.1,
                i <= rows,
                out@.len() == i,
                forall|j: int|
                    0 <= j < i ==> out@[j] == circle_row(center, radius, color, self.region, j),
            decreases rows - i,
        {
            let dy: i64 = i as i64 - r64 as i64;
            let ady: u64 = if dy < 0 {
                (-dy) as u64
            } else {
                dy as u64
            };
            assert(ady <= r64);
            assert(ady * ady <= r64 * r64 && r64 * r64 <= u64::MAX) by (nonlinear_arith)
                requires
                    ady <= r64,
                    r64 <= u32::MAX,
            ;
            let sq: u64 = r64 * r64 - ady * ady;
            let hw64: u64 = isqrt(sq);
            proof {
                let r_i = radius as int;
                let dy_i = i - r_i;
                lemma_sqrt_floor_bounds(sq as nat);
                assert((ady as int) * (ady as int) == dy_i * dy_i) by (nonlinear_arith)
                    requires
                        ady == dy_i || ady == -dy_i,
                ;
                assert((r64 as int) * (r64 as int) == r_i * r_i) by (nonlinear_arith)
                    requires
                        r64 == r_i,
                ;
                assert(sq == r_i * r_i - dy_i * dy_i);
                assert(hw64 == sqrt_floor((radius * radius - dy_i * dy_i) as nat));
                assert(hw64 <= r64) by (nonlinear_arith)
                    requires
                        (hw64 as int) * (hw64 as int) <= (r64 as int) * (r64 as int),
                ;
            }
            let hw: i64 = hw64 as i64;
            let a = to_normalized(cx - hw, cy + dy, &self.region);
            let b = to_normalized(cx + hw, cy + dy, &self.region);
            out.push(Primitive::Line { a, b, color });
            i = i + 1;
        }
        out
    }

    /// Draws an axis-aligned rectangle between two corners, given in any
    /// order: the corners are normalized to (min, max) per axis first, so
    /// swapping them on either or both axes changes nothing. Unfilled, it
    /// is one canvas rectangle outline spanning the transformed bounds.
    /// Filled, it is rasterized as one vertical line per integer x column
    /// in `[xmin, xmax]` inclusive.
    pub fn draw_rect(&self, coord1: (i32, i32), coord2: (i32, i32), color: Color, fill: bool) -> (r:
        Vec<Primitive>)
        requires
            self.region.is_drawable(),
            fill ==> rect_xmax(coord1, coord2) - rect_xmin(coord1, coord2) + 1 <= usize::MAX
                as int,
        ensures
            r@ =~= rect_primitives(coord1, coord2, color, fill, self.region),
    {
        let xmin: i32 = if coord1.0 <= coord2.0 {
            coord1.0
        } else {
            coord2.0
        };
        let xmax: i32 = if coord1.0 <= coord2.0 {
            coord2.0
        } else {
            coord1.0
        };
        let ymin: i32 = if coord1.1 <= coord2.1 {
            coord1.1
        } else {
            coord2.1
        };
        let ymax: i32 = if coord1.1 <= coord2.1 {
            coord2.1
        } else {
            coord1.1
        };
        let mut out: Vec<Primitive> = Vec::new();
        if !fill {
            let corner = to_normalized(xmin as i64, ymax as i64, &self.region);
            out.push(
                Primitive::Rect {
                    corner,
                    width_num: xmax as i64 - xmin as i64,
                    height_num: ymax as i64 - ymin as i64,
                    color,
                },
            );
            return out;
        }
        let count: usize = ((xmax as i64 - xmin as i64) as u64 + 1) as usize;
        let mut i: usize = 0;
        while i < count
            invariant
                self.region.is_drawable(),
                xmin == rect_xmin(coord1, coord2),
                xmax == rect_xmax(coord1, coord2),
                ymin == rect_ymin(coord1, coord2),
                ymax == rect_ymax(coord1, coord2),
                count == rect_xmax(coord1, coord2) - rect_xmin(coord1, coord2) + 1,
                i <= count,
                out@.len() == i,
                forall|j: int|
                    0 <= j < i ==> out@[j] == rect_column_line(
                        coord1,
                        coord2,
                        color,
                        self.region,
                        j,
                    ),
            decreases count - i,
        {
            let x: i64 = xmin as i64 + i as i64;
            let a = to_normalized(x, ymin as i64, &self.region);
            let b = to_normalized(x, ymax as i64, &self.region);
            out.push(Primitive::Line { a, b, color });
            i = i + 1;
        }
        out
    }

    /// Draws a text run centered on `anchor`: the anchor is shifted left by
    /// half the estimated pixel width of the text before transforming, so
    /// the rendered string is centered on the anchor rather than
    /// left-aligned; the y coordinate is not shifted.
    pub fn draw_text(&self, text: &str, color: Color, anchor: (i32, i32)) -> (r: Vec<Primitive>)
        requires
            self.region.is_drawable(),
            text@.len() * (CELL_PIXEL_WIDTH as int) <= u32::MAX as int,
        ensures
            r@.len() == 1,
            is_text_primitive(
                r@[0],
                norm_spec(anchor.0 - text_shift(text@.len()), anchor.1 as int, self.region),
                text@,
                color,
            ),
    {
        let n: usize = text.unicode_len();
        let shift: u32 = n as u32 * CELL_PIXEL_WIDTH / 2;
        let pos = to_normalized(anchor.0 as i64 - shift as i64, anchor.1 as i64, &self.region);
        let mut out: Vec<Primitive> = Vec::new();
        out.push(Primitive::Text { pos, content: String::from_str(text), color });
        out
    }

    /// Estimated pixel footprint of a text run: fixed height of one cell,
    /// width proportional to the glyph count. No actual glyph metrics are
    /// consulted.
    pub fn estimate_text_size(&self, text: &str) -> (r: (u32, u32))
        requires
            text@.len() * (CELL_PIXEL_WIDTH as int) <= u32::MAX as int,
        ensures
            r.0 == text@.len() * (CELL_PIXEL_WIDTH as int),
            r.1 == CELL_PIXEL_HEIGHT,
    {
        (text.unicode_len() as u32 * CELL_PIXEL_WIDTH, CELL_PIXEL_HEIGHT)
    }
}

/// The x column a vertical fill-sweep line stands on (its top endpoint's
/// normalized numerator); 0 for any other primitive.
pub open spec fn line_column(p: Primitive) -> int {
    match p {
        Primitive::Line { a, .. } => a.x_num as int,
        _ => 0,
    }
}

/// Whether some primitive of `s` is a vertical fill-sweep line on column
/// `x`.
pub open spec fn contains_column(s: Seq<Primitive>, x: int) -> bool {
    exists|i: int| 0 <= i < s.len() && line_column(#[trigger] s[i]) == x
}

/// Rectangle corner-order invariance: a rectangle-draw call emits exactly
/// the same primitives when its two corners are exchanged on the x axis,
/// on the y axis, or on both, whether filled or unfilled.
pub proof fn lemma_rect_corner_order(
    c1: (i32, i32),
    c2: (i32, i32),
    color: Color,
    fill: bool,
    region: Region,
)
    ensures
        rect_primitives(c2, c1, color, fill, region) == rect_primitives(c1, c2, color, fill, region),
        rect_primitives((c2.0, c1.1), (c1.0, c2.1), color, fill, region) == rect_primitives(
            c1,
            c2,
            color,
            fill,
            region,
        ),
        rect_primitives((c1.0, c2.1), (c2.0, c1.1), color, fill, region) == rect_primitives(
            c1,
            c2,
            color,
            fill,
            region,
        ),
{
    assert(rect_primitives(c2, c1, color, fill, region) =~= rect_primitives(
        c1,
        c2,
        color,
        fill,
        region,
    ));
    assert(rect_primitives((c2.0, c1.1), (c1.0, c2.1), color, fill, region) =~= rect_primitives(
        c1,
        c2,
        color,
        fill,
        region,
    ));
    assert(rect_primitives((c1.0, c2.1), (c2.0, c1.1), color, fill, region) =~= rect_primitives(
        c1,
        c2,
        color,
        fill,
        region,
    ));
}

/// Filled-rectangle coverage: the fill sweep emits one vertical line per
/// integer x column of `[xmin, xmax]` inclusive, in increasing order; no
/// column is skipped or duplicated.
pub proof fn lemma_filled_rect_columns(c1: (i32, i32), c2: (i32, i32), color: Color, region: Region)
    ensures
        ({
            let s = rect_primitives(c1, c2, color, true, region);
            let xmin = rect_xmin(c1, c2);
            let xmax = rect_xmax(c1, c2);
            &&& s.len() == xmax - xmin + 1
            &&& forall|i: int| 0 <= i < s.len() ==> line_column(#[trigger] s[i]) == xmin + i
            &&& forall|i: int, j: int|
                0 <= i < j < s.len() ==> line_column(#[trigger] s[i]) != line_column(
                    #[trigger] s[j],
                )
            &&& forall|x: int| xmin <= x <= xmax <==> #[trigger] contains_column(s, x)
        }),
{
    let s = rect_primitives(c1, c2, color, true, region);
    let xmin = rect_xmin(c1, c2);
    let xmax = rect_xmax(c1, c2);
    assert forall|x: int| xmin <= x <= xmax implies #[trigger] contains_column(s, x) by {
        let i = x - xmin;
        assert(0 <= i < s.len());
        assert(line_column(s[i]) == x);
    }
}

/// Filled-circle fill sweep: a filled circle of radius `r` emits exactly
/// `2 * r + 1` line segments, and the half-width of the segment at row
/// offset `dy` is the floor of `sqrt(r^2 - dy^2)`: its square is at most
/// `r^2 - dy^2`, which the next square exceeds.
pub proof fn lemma_filled_circle_rows(center: (i32, i32), radius: u32, color: Color, region: Region)
    ensures
        circle_primitives(center, radius, color, true, region).len() == 2 * radius + 1,
        forall|i: int|
            0 <= i < 2 * radius + 1 ==> ({
                let dy = i - radius;
                let hw = #[trigger] circle_row_halfwidth(radius, i);
                &&& 0 <= hw
                &&& hw * hw <= radius * radius - dy * dy
                &&& radius * radius - dy * dy < (hw + 1) * (hw + 1)
            }),
{
    assert forall|i: int| 0 <= i < 2 * radius + 1 implies ({
        let dy = i - radius;
        let hw = #[trigger] circle_row_halfwidth(radius, i);
        &&& 0 <= hw
        &&& hw * hw <= radius * radius - dy * dy
        &&& radius * radius - dy * dy < (hw + 1) * (hw + 1)
    }) by {
        let dy = i - radius;
        assert(-(radius as int) <= dy <= radius as int);
        assert(dy * dy <= (radius as int) * (radius as int)) by (nonlinear_arith)
            requires
                -(radius as int) <= dy <= radius as int,
        ;
        let n = (radius * radius - dy * dy) as nat;
        lemma_sqrt_floor_bounds(n);
    }
}

/// Text anchor centering: the emitted draw position's x is the anchor's x
/// shifted left by half the text's estimated pixel width, while its y is
/// the anchor's y, unshifted.
pub proof fn lemma_text_anchor_centering(anchor: (i32, i32), n: nat, region: Region)
    requires
        region.is_drawable(),
        n * (CELL_PIXEL_WIDTH as int) <= u32::MAX as int,
    ensures
        norm_spec(anchor.0 - text_shift(n), anchor.1 as int, region).x_num == anchor.0 - (n * (
        CELL_PIXEL_WIDTH as int)) / 2,
        norm_spec(anchor.0 - text_shift(n), anchor.1 as int, region).y_num == norm_spec(
            anchor.0 as int,
            anchor.1 as int,
            region,
        ).y_num,
        norm_spec(anchor.0 - text_shift(n), anchor.1 as int, region).y_den == norm_spec(
            anchor.0 as int,
            anchor.1 as int,
            region,
        ).y_den,
{
}

} // verus!
