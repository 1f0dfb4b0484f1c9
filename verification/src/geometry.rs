//! Integer geometry of the display plane: points, offsets, rectangles and
//! grids.
//!
//! Coordinates are `i32`. Every operation is total: a result that would leave
//! the `i32` range stops at the end of the range (see [`sat`]). For the
//! coordinates of any real display no operation ever gets there.
use vstd::prelude::*;

verus! {

/// The largest number of rows or columns a [`Grid`] may have.
pub const GRID_MAX: usize = 0x7fff;

/// `v`, brought into the range of `i32`.
pub open spec fn sat(v: int) -> i32 {
    if v < i32::MIN {
        i32::MIN
    } else if v > i32::MAX {
        i32::MAX
    } else {
        v as i32
    }
}

/// Narrows a wide intermediate result to a coordinate.
pub fn saturate(v: i64) -> (r: i32)
    ensures
        r == sat(v as int),
{
    if v < i32::MIN as i64 {
        i32::MIN
    } else if v > i32::MAX as i64 {
        i32::MAX
    } else {
        v as i32
    }
}

/// A displacement between two points.
#[derive(Clone, Copy, Debug, PartialEq, Eq, Structural)]
pub struct Offset {
    pub x: i32,
    pub y: i32,
}

impl Offset {
    pub fn new(x: i32, y: i32) -> (o: Offset)
        ensures
            o == (Offset { x, y }),
    {
        Offset { x, y }
    }
}

/// A position on the display plane. `x` grows to the right, `y` grows downwards.
#[derive(Clone, Copy, Debug, PartialEq, Eq, Structural)]
pub struct Point {
    pub x: i32,
    pub y: i32,
}

impl Point {
    pub fn new(x: i32, y: i32) -> (p: Point)
        ensures
            p == (Point { x, y }),
    {
        Point { x, y }
    }

    /// The point reached from `self` by going `by`.
    pub open spec fn spec_translate(self, by: Offset) -> Point {
        Point { x: sat(self.x + by.x), y: sat(self.y + by.y) }
    }

    #[verifier::when_used_as_spec(spec_translate)]
    pub fn translate(self, by: Offset) -> (p: Point)
        ensures
            p == self.spec_translate(by),
    {
        Point {
            x: saturate(self.x as i64 + by.x as i64),
            y: saturate(self.y as i64 + by.y as i64),
        }
    }

    /// The displacement that leads from `origin` to `self`.
    pub open spec fn spec_offset_from(self, origin: Point) -> Offset {
        Offset { x: sat(self.x - origin.x), y: sat(self.y - origin.y) }
    }

    #[verifier::when_used_as_spec(spec_offset_from)]
    pub fn offset_from(self, origin: Point) -> (o: Offset)
        ensures
            o == self.spec_offset_from(origin),
    {
        Offset {
            x: saturate(self.x as i64 - origin.x as i64),
            y: saturate(self.y as i64 - origin.y as i64),
        }
    }
}

/// Distances by which each side of a rectangle is moved inwards.
#[derive(Clone, Copy, Debug, PartialEq, Eq, Structural)]
pub struct Insets {
    pub top: i32,
    pub right: i32,
    pub bottom: i32,
    pub left: i32,
}

impl Insets {
    pub fn new(top: i32, right: i32, bottom: i32, left: i32) -> (i: Insets)
        ensures
            i == (Insets { top, right, bottom, left }),
    {
        Insets { top, right, bottom, left }
    }

    /// Insets that move the right side only.
    pub fn right(d: i32) -> (i: Insets)
        ensures
            i == (Insets { top: 0, right: d, bottom: 0, left: 0 }),
    {
        Insets { top: 0, right: d, bottom: 0, left: 0 }
    }
}

/// An axis-aligned rectangle. `(x0, y0)` is its top-left corner and belongs
/// to it; `(x1, y1)` is its bottom-right corner and lies just outside.
#[derive(Clone, Copy, Debug, PartialEq, Eq, Structural)]
pub struct Rect {
    pub x0: i32,
    pub y0: i32,
    pub x1: i32,
    pub y1: i32,
}

impl Rect {
    pub fn new(p0: Point, p1: Point) -> (r: Rect)
        ensures
            r == (Rect { x0: p0.x, y0: p0.y, x1: p1.x, y1: p1.y }),
    {
        Rect { x0: p0.x, y0: p0.y, x1: p1.x, y1: p1.y }
    }

    /// The rectangle with the given top-left corner and extent.
    pub open spec fn spec_from_top_left_and_size(p0: Point, size: Offset) -> Rect {
        Rect { x0: p0.x, y0: p0.y, x1: sat(p0.x + size.x), y1: sat(p0.y + size.y) }
    }

    #[verifier::when_used_as_spec(spec_from_top_left_and_size)]
    pub fn from_top_left_and_size(p0: Point, size: Offset) -> (r: Rect)
        ensures
            r == Rect::spec_from_top_left_and_size(p0, size),
    {
        let p1 = p0.translate(size);
        Rect { x0: p0.x, y0: p0.y, x1: p1.x, y1: p1.y }
    }

    /// The rectangle moved by `by`.
    pub open spec fn spec_translate(self, by: Offset) -> Rect {
        Rect {
            x0: sat(self.x0 + by.x),
            y0: sat(self.y0 + by.y),
            x1: sat(self.x1 + by.x),
            y1: sat(self.y1 + by.y),
        }
    }

    #[verifier::when_used_as_spec(spec_translate)]
    pub fn translate(self, by: Offset) -> (r: Rect)
        ensures
            r == self.spec_translate(by),
    {
        Rect {
            x0: saturate(self.x0 as i64 + by.x as i64),
            y0: saturate(self.y0 as i64 + by.y as i64),
            x1: saturate(self.x1 as i64 + by.x as i64),
            y1: saturate(self.y1 as i64 + by.y as i64),
        }
    }

    pub open spec fn spec_width(self) -> i32 {
        sat(self.x1 - self.x0)
    }

    #[verifier::when_used_as_spec(spec_width)]
    pub fn width(self) -> (w: i32)
        ensures
            w == self.spec_width(),
    {
        saturate(self.x1 as i64 - self.x0 as i64)
    }

    pub open spec fn spec_height(self) -> i32 {
        sat(self.y1 - self.y0)
    }

    #[verifier::when_used_as_spec(spec_height)]
    pub fn height(self) -> (h: i32)
        ensures
            h == self.spec_height(),
    {
        saturate(self.y1 as i64 - self.y0 as i64)
    }

    pub fn top_left(self) -> (p: Point)
        ensures
            p == (Point { x: self.x0, y: self.y0 }),
    {
        Point { x: self.x0, y: self.y0 }
    }

    pub fn top_right(self) -> (p: Point)
        ensures
            p == (Point { x: self.x1, y: self.y0 }),
    {
        Point { x: self.x1, y: self.y0 }
    }

    pub fn bottom_left(self) -> (p: Point)
        ensures
            p == (Point { x: self.x0, y: self.y1 }),
    {
        Point { x: self.x0, y: self.y1 }
    }

    /// The middle of the rectangle; a half is rounded towards negative infinity.
    pub open spec fn spec_center(self) -> Point {
        Point { x: ((self.x0 + self.x1) / 2) as i32, y: ((self.y0 + self.y1) / 2) as i32 }
    }

    #[verifier::when_used_as_spec(spec_center)]
    pub fn center(self) -> (p: Point)
        ensures
            p == self.spec_center(),
    {
        Point { x: midpoint(self.x0, self.x1), y: midpoint(self.y0, self.y1) }
    }

    /// The middle of the bottom side.
    pub open spec fn spec_bottom_center(self) -> Point {
        Point { x: ((self.x0 + self.x1) / 2) as i32, y: self.y1 }
    }

    #[verifier::when_used_as_spec(spec_bottom_center)]
    pub fn bottom_center(self) -> (p: Point)
        ensures
            p == self.spec_bottom_center(),
    {
        Point { x: midpoint(self.x0, self.x1), y: self.y1 }
    }

    /// Whether `p` lies inside: the top and left sides belong to the
    /// rectangle, the bottom and right sides do not.
    pub open spec fn spec_contains(self, p: Point) -> bool {
        self.x0 <= p.x < self.x1 && self.y0 <= p.y < self.y1
    }

    #[verifier::when_used_as_spec(spec_contains)]
    pub fn contains(self, p: Point) -> (b: bool)
        ensures
            b == self.spec_contains(p),
    {
        self.x0 <= p.x && p.x < self.x1 && self.y0 <= p.y && p.y < self.y1
    }

    /// The rectangle with each side moved inwards by the matching inset.
    pub open spec fn spec_inset(self, insets: Insets) -> Rect {
        Rect {
            x0: sat(self.x0 + insets.left),
            y0: sat(self.y0 + insets.top),
            x1: sat(self.x1 - insets.right),
            y1: sat(self.y1 - insets.bottom),
        }
    }

    #[verifier::when_used_as_spec(spec_inset)]
    pub fn inset(self, insets: Insets) -> (r: Rect)
        ensures
            r == self.spec_inset(insets),
    {
        Rect {
            x0: saturate(self.x0 as i64 + insets.left as i64),
            y0: saturate(self.y0 as i64 + insets.top as i64),
            x1: saturate(self.x1 as i64 - insets.right as i64),
            y1: saturate(self.y1 as i64 - insets.bottom as i64),
        }
    }

    /// Where a horizontal cut `height` below the top side falls: never above
    /// the top side, and never below the bottom side.
    pub open spec fn cut_y(self, height: int) -> i32 {
        if height <= 0 || self.y1 <= self.y0 {
            self.y0
        } else if height >= self.y1 - self.y0 {
            self.y1
        } else {
            (self.y0 + height) as i32
        }
    }

    /// Where a vertical cut `width` right of the left side falls: never left
    /// of the left side, and never right of the right side.
    pub open spec fn cut_x(self, width: int) -> i32 {
        if width <= 0 || self.x1 <= self.x0 {
            self.x0
        } else if width >= self.x1 - self.x0 {
            self.x1
        } else {
            (self.x0 + width) as i32
        }
    }

    /// The part above and the part below a horizontal cut `height` below the top side.
    pub open spec fn spec_split_top(self, height: int) -> (Rect, Rect) {
        (Rect { y1: self.cut_y(height), ..self }, Rect { y0: self.cut_y(height), ..self })
    }

    /// Cuts off the top `height` rows; returns them and the rest.
    pub fn split_top(self, height: i32) -> (r: (Rect, Rect))
        ensures
            r == self.spec_split_top(height as int),
    {
        let cut = self.cut_row(height as i64);
        (
            Rect { x0: self.x0, y0: self.y0, x1: self.x1, y1: cut },
            Rect { x0: self.x0, y0: cut, x1: self.x1, y1: self.y1 },
        )
    }

    /// Cuts off the bottom `height` rows; returns the rest and them.
    pub fn split_bottom(self, height: i32) -> (r: (Rect, Rect))
        ensures
            r == self.spec_split_top(self.y1 - self.y0 - height),
    {
        let cut = self.cut_row(self.y1 as i64 - self.y0 as i64 - height as i64);
        (
            Rect { x0: self.x0, y0: self.y0, x1: self.x1, y1: cut },
            Rect { x0: self.x0, y0: cut, x1: self.x1, y1: self.y1 },
        )
    }

    /// The part left and the part right of a vertical cut `width` right of the left side.
    pub open spec fn spec_split_left(self, width: int) -> (Rect, Rect) {
        (Rect { x1: self.cut_x(width), ..self }, Rect { x0: self.cut_x(width), ..self })
    }

    /// Cuts off the left `width` columns; returns them and the rest.
    pub fn split_left(self, width: i32) -> (r: (Rect, Rect))
        ensures
            r == self.spec_split_left(width as int),
    {
        let cut = self.cut_column(width as i64);
        (
            Rect { x0: self.x0, y0: self.y0, x1: cut, y1: self.y1 },
            Rect { x0: cut, y0: self.y0, x1: self.x1, y1: self.y1 },
        )
    }

    /// Cuts off the right `width` columns; returns the rest and them.
    pub fn split_right(self, width: i32) -> (r: (Rect, Rect))
        ensures
            r == self.spec_split_left(self.x1 - self.x0 - width),
    {
        let cut = self.cut_column(self.x1 as i64 - self.x0 as i64 - width as i64);
        (
            Rect { x0: self.x0, y0: self.y0, x1: cut, y1: self.y1 },
            Rect { x0: cut, y0: self.y0, x1: self.x1, y1: self.y1 },
        )
    }

    fn cut_row(self, height: i64) -> (y: i32)
        requires
            -0x2_0000_0000 <= height <= 0x2_0000_0000,
        ensures
            y == self.cut_y(height as int),
    {
        if height <= 0 || self.y1 <= self.y0 {
            self.y0
        } else if height >= self.y1 as i64 - self.y0 as i64 {
            self.y1
        } else {
            (self.y0 as i64 + height) as i32
        }
    }

    fn cut_column(self, width: i64) -> (x: i32)
        requires
            -0x2_0000_0000 <= width <= 0x2_0000_0000,
        ensures
            x == self.cut_x(width as int),
    {
        if width <= 0 || self.x1 <= self.x0 {
            self.x0
        } else if width >= self.x1 as i64 - self.x0 as i64 {
            self.x1
        } else {
            (self.x0 as i64 + width) as i32
        }
    }
}

/// The integer halfway between `a` and `b`, a half rounded towards negative infinity.
pub fn midpoint(a: i32, b: i32) -> (m: i32)
    ensures
        m == (a + b) / 2,
{
    let sum: i64 = a as i64 + b as i64;
    if sum >= 0 {
        (sum / 2) as i32
    } else {
        // -sum is positive; round its half up to round the half of sum down.
        let half: i64 = (1 - sum) / 2;
        (-half) as i32
    }
}

/// A partition of a rectangle into `rows` x `cols` cells of equal size with
/// `spacing` between neighbouring cells.
#[derive(Clone, Copy, Debug, PartialEq, Eq, Structural)]
pub struct Grid {
    pub rows: usize,
    pub cols: usize,
    pub spacing: i32,
    pub area: Rect,
}

/// The extent of one of `count` equal cells laid side by side over `total`
/// with `spacing` between neighbours; zero where they do not fit.
pub open spec fn cell_extent(total: int, spacing: int, count: int) -> i32 {
    if total - spacing * (count - 1) <= 0 {
        0
    } else {
        sat((total - spacing * (count - 1)) / count)
    }
}

/// Where cell number `index` begins, the first cell beginning at `start`.
pub open spec fn cell_start(start: int, extent: int, spacing: int, index: int) -> i32 {
    sat(start + index * (extent + spacing))
}

impl Grid {
    /// The grid has at least one row and one column, and no more of either than [`GRID_MAX`].
    pub open spec fn wf(self) -> bool {
        1 <= self.rows <= GRID_MAX && 1 <= self.cols <= GRID_MAX
    }

    /// A grid without spacing.
    pub fn new(area: Rect, rows: usize, cols: usize) -> (g: Grid)
        requires
            1 <= rows <= GRID_MAX,
            1 <= cols <= GRID_MAX,
        ensures
            g == (Grid { rows, cols, spacing: 0, area }),
            g.wf(),
    {
        Grid { rows, cols, spacing: 0, area }
    }

    pub fn with_spacing(self, spacing: i32) -> (g: Grid)
        ensures
            g == (Grid { spacing, ..self }),
    {
        Grid { rows: self.rows, cols: self.cols, spacing, area: self.area }
    }

    /// The cell in row `row` and column `col`, both counted from zero.
    pub open spec fn spec_row_col(self, row: int, col: int) -> Rect {
        let w = cell_extent(self.area.spec_width() as int, self.spacing as int, self.cols as int);
        let h = cell_extent(self.area.spec_height() as int, self.spacing as int, self.rows as int);
        Rect::spec_from_top_left_and_size(
            Point {
                x: cell_start(self.area.x0 as int, w as int, self.spacing as int, col),
                y: cell_start(self.area.y0 as int, h as int, self.spacing as int, row),
            },
            Offset { x: w, y: h },
        )
    }

    /// The cell with number `index`, cells counted row by row from zero.
    pub open spec fn spec_cell(self, index: int) -> Rect {
        self.spec_row_col(index / (self.cols as int), index % (self.cols as int))
    }

    /// The cell in row `row` and column `col`. Cells outside the grid do not exist.
    pub fn row_col(&self, row: usize, col: usize) -> (r: Rect)
        requires
            self.wf(),
            row < self.rows,
            col < self.cols,
        ensures
            r == self.spec_row_col(row as int, col as int),
    {
        let w = extent_of(self.area.width(), self.spacing, self.cols);
        let h = extent_of(self.area.height(), self.spacing, self.rows);
        let x = start_of(self.area.x0, w, self.spacing, col);
        let y = start_of(self.area.y0, h, self.spacing, row);
        Rect::from_top_left_and_size(Point { x, y }, Offset { x: w, y: h })
    }

    /// The cell with number `index`. Cells outside the grid do not exist.
    pub fn cell(&self, index: usize) -> (r: Rect)
        requires
            self.wf(),
            index < self.rows * self.cols,
        ensures
            r == self.spec_cell(index as int),
    {
        assert(index / self.cols < self.rows) by (nonlinear_arith)
            requires
                index < self.rows * self.cols,
                self.cols > 0,
        ;
        self.row_col(index / self.cols, index % self.cols)
    }
}

fn extent_of(total: i32, spacing: i32, count: usize) -> (e: i32)
    requires
        1 <= count <= GRID_MAX,
    ensures
        e == cell_extent(total as int, spacing as int, count as int),
{
    let n: i64 = count as i64;
    assert(-0x8000_0000 * 0x8000 <= spacing * (n - 1) <= 0x8000_0000 * 0x8000) by (nonlinear_arith)
        requires
            -0x8000_0000 <= spacing < 0x8000_0000,
            0 <= n - 1 < 0x8000,
    ;
    let free: i64 = total as i64 - spacing as i64 * (n - 1);
    if free <= 0 {
        0
    } else {
        saturate(free / n)
    }
}

fn start_of(start: i32, extent: i32, spacing: i32, index: usize) -> (s: i32)
    requires
        index < GRID_MAX,
    ensures
        s == cell_start(start as int, extent as int, spacing as int, index as int),
{
    let i: i64 = index as i64;
    let step: i64 = extent as i64 + spacing as i64;
    assert(-0x1_0000_0000 * 0x8000 <= i * step <= 0x1_0000_0000 * 0x8000) by (nonlinear_arith)
        requires
            -0x1_0000_0000 <= step <= 0x1_0000_0000,
            0 <= i < 0x8000,
    ;
    saturate(start as i64 + i * step)
}

/// Narrows a very wide intermediate result to a coordinate.
pub fn saturate_wide(v: i128) -> (r: i32)
    ensures
        r == sat(v as int),
{
    if v < i32::MIN as i128 {
        i32::MIN
    } else if v > i32::MAX as i128 {
        i32::MAX
    } else {
        v as i32
    }
}

/// Half of `v`, a half rounded towards negative infinity.
fn half(v: i128) -> (h: i128)
    requires
        -0x1_0000_0000_0000_0000_0000_0000_0000 <= v <= 0x1_0000_0000_0000_0000_0000_0000_0000,
    ensures
        h == v / 2,
{
    if v >= 0 {
        v / 2
    } else {
        -((1 - v) / 2)
    }
}

/// The direction in which things follow one another.
#[derive(Clone, Copy, Debug, PartialEq, Eq, Structural)]
pub enum Axis {
    Horizontal,
    Vertical,
}

/// Where something lies: in the room it is given, or relative to the point it is drawn at.
#[derive(Clone, Copy, Debug, PartialEq, Eq, Structural)]
pub enum Alignment {
    /// At the beginning: for what is drawn, the point is the left end of the
    /// baseline (text) or the top-left corner (icon).
    Start,
    /// In the middle.
    Center,
    /// At the end: for what is drawn, the point is the right end of the baseline.
    End,
}

/// A row or a column of items of equal size.
#[derive(Clone, Copy, Debug, PartialEq, Eq, Structural)]
pub struct LinearLayout {
    /// The direction in which the items follow one another.
    pub axis: Axis,
    /// Where the items go if they do not fill the room.
    pub align: Alignment,
    /// The free space between two items, if there is room for it.
    pub spacing: i32,
}

impl LinearLayout {
    /// A row that begins at the left, without spacing.
    pub fn horizontal() -> (l: LinearLayout)
        ensures
            l == (LinearLayout { axis: Axis::Horizontal, align: Alignment::Start, spacing: 0 }),
    {
        LinearLayout { axis: Axis::Horizontal, align: Alignment::Start, spacing: 0 }
    }

    /// A column that begins at the top, without spacing.
    pub fn vertical() -> (l: LinearLayout)
        ensures
            l == (LinearLayout { axis: Axis::Vertical, align: Alignment::Start, spacing: 0 }),
    {
        LinearLayout { axis: Axis::Vertical, align: Alignment::Start, spacing: 0 }
    }

    pub fn align_at_start(self) -> (l: LinearLayout)
        ensures
            l == (LinearLayout { align: Alignment::Start, ..self }),
    {
        LinearLayout { align: Alignment::Start, ..self }
    }

    pub fn align_at_center(self) -> (l: LinearLayout)
        ensures
            l == (LinearLayout { align: Alignment::Center, ..self }),
    {
        LinearLayout { align: Alignment::Center, ..self }
    }

    pub fn align_at_end(self) -> (l: LinearLayout)
        ensures
            l == (LinearLayout { align: Alignment::End, ..self }),
    {
        LinearLayout { align: Alignment::End, ..self }
    }

    pub fn with_spacing(self, spacing: i32) -> (l: LinearLayout)
        ensures
            l == (LinearLayout { spacing, ..self }),
    {
        LinearLayout { spacing, ..self }
    }

    /// The room that `count` items of extent `item` take with the spacing of the layout.
    pub open spec fn wanted(self, count: int, item: int) -> int {
        count * item + (if count > 0 {
            count - 1
        } else {
            0
        }) * self.spacing
    }

    /// The free space between two items when `count` items of extent `item`
    /// share `available`: the spacing of the layout if there is room for
    /// it, and else what is left over, shared evenly, but never less than
    /// nothing.
    pub open spec fn gap(self, available: int, count: int, item: int) -> int {
        if count >= 2 && self.wanted(count, item) > available {
            if available - count * item <= 0 {
                0
            } else {
                (available - count * item) / (count - 1)
            }
        } else {
            self.spacing as int
        }
    }

    /// The room that the items take in the end: what they want, or all
    /// there is if they want more.
    pub open spec fn taken(self, available: int, count: int, item: int) -> int {
        if self.wanted(count, item) > available {
            available
        } else {
            self.wanted(count, item)
        }
    }

    /// How far from the beginning of the room item `index` begins.
    pub open spec fn offset_of(self, available: int, count: int, item: int, index: int) -> int {
        (match self.align {
            Alignment::Start => 0,
            Alignment::Center => available / 2 - self.taken(available, count, item) / 2,
            Alignment::End => available - self.taken(available, count, item),
        }) + index * (item + self.gap(available, count, item))
    }

    /// The top-left corner of item `index` among `count` items of size
    /// `size` laid out in `area`: along the axis as [`Self::offset_of`]
    /// says, and across it in the middle. A size below zero counts as zero.
    pub open spec fn spec_place(self, area: Rect, count: int, size: Offset, index: int) -> Point {
        let w = if size.x < 0 {
            0
        } else {
            size.x as int
        };
        let h = if size.y < 0 {
            0
        } else {
            size.y as int
        };
        match self.axis {
            Axis::Horizontal => Point {
                x: sat(area.x0 + self.offset_of(area.spec_width() as int, count, w, index)),
                y: sat(area.y0 + (area.spec_height() / 2 - h / 2)),
            },
            Axis::Vertical => Point {
                x: sat(area.x0 + (area.spec_width() / 2 - w / 2)),
                y: sat(area.y0 + self.offset_of(area.spec_height() as int, count, h, index)),
            },
        }
    }

    /// The top-left corner of item `index` among `count` items of size `size` laid out in `area`.
    pub fn place(self, area: Rect, count: usize, size: Offset, index: usize) -> (p: Point)
        ensures
            p == self.spec_place(area, count as int, size, index as int),
    {
        let w: i32 = if size.x < 0 {
            0
        } else {
            size.x
        };
        let h: i32 = if size.y < 0 {
            0
        } else {
            size.y
        };
        match self.axis {
            Axis::Horizontal => Point {
                x: saturate_wide(area.x0 as i128 + self.along(area.width(), count, w, index)),
                y: saturate_wide(area.y0 as i128 + (half(area.height() as i128) - half(h as i128))),
            },
            Axis::Vertical => Point {
                x: saturate_wide(area.x0 as i128 + (half(area.width() as i128) - half(w as i128))),
                y: saturate_wide(area.y0 as i128 + self.along(area.height(), count, h, index)),
            },
        }
    }

    fn along(self, available: i32, count: usize, item: i32, index: usize) -> (offset: i128)
        requires
            item >= 0,
        ensures
            offset == self.offset_of(available as int, count as int, item as int, index as int),
            -0x1_0000_0000_0000_0000_0000_0000_0000 <= offset <= 0x1_0000_0000_0000_0000_0000_0000_0000,
    {
        let n: i128 = count as i128;
        let i: i128 = index as i128;
        let gaps: i128 = if n > 0 {
            n - 1
        } else {
            0
        };
        assert(0 <= n * item <= 0x1_0000_0000_0000_0000 * 0x8000_0000) by (nonlinear_arith)
            requires
                0 <= n <= 0x1_0000_0000_0000_0000,
                0 <= item < 0x8000_0000,
        ;
        assert(-0x1_0000_0000_0000_0000 * 0x8000_0000 <= gaps * self.spacing
            <= 0x1_0000_0000_0000_0000 * 0x8000_0000) by (nonlinear_arith)
            requires
                0 <= gaps <= 0x1_0000_0000_0000_0000,
                -0x8000_0000 <= self.spacing < 0x8000_0000,
        ;
        let items: i128 = n * (item as i128);
        let wanted: i128 = items + gaps * (self.spacing as i128);
        let squeezed = wanted > available as i128;
        let gap: i128 = if n >= 2 && squeezed {
            if available as i128 - items <= 0 {
                0
            } else {
                (available as i128 - items) / (n - 1)
            }
        } else {
            self.spacing as i128
        };
        let taken: i128 = if squeezed {
            available as i128
        } else {
            wanted
        };
        let first: i128 = match self.align {
            Alignment::Start => 0,
            Alignment::Center => half(available as i128) - half(taken),
            Alignment::End => available as i128 - taken,
        };
        let step: i128 = item as i128 + gap;
        assert(-0x1_0000_0000_0000_0000 * 0x2_0000_0000 <= i * step <= 0x1_0000_0000_0000_0000
            * 0x2_0000_0000) by (nonlinear_arith)
            requires
                0 <= i <= 0x1_0000_0000_0000_0000,
                -0x2_0000_0000 <= step <= 0x2_0000_0000,
        ;
        first + i * step
    }
}

} // verus!
