//! Responsive tile grid: how many columns fit a container and how wide each tile is.
//!
//! The policy is greedy: take as many columns as fit when every tile has its
//! minimum width and neighbouring columns are one gap apart, then stretch the
//! tiles evenly over whatever width is left. Tiles are placed row by row, and
//! a row is full once it holds one tile per column.

use vstd::prelude::*;

verus! {

/// Columns that fit beside the first one. Each of them costs one gap and one
/// tile of the minimum width; a container narrower than a single tile has none.
pub open spec fn extra_columns(width: nat, min_width: nat, spacing: nat) -> nat {
    if width <= min_width {
        0
    } else {
        ((width - min_width) / (min_width + spacing) as int) as nat
    }
}

/// Number of columns laid out in a container of the given width.
pub open spec fn columns(width: nat, min_width: nat, spacing: nat) -> nat {
    extra_columns(width, min_width, spacing) + 1
}

/// Width left for the tiles once the gaps between the columns are taken out.
pub open spec fn usable_width(width: nat, min_width: nat, spacing: nat) -> nat {
    let gaps = extra_columns(width, min_width, spacing) * spacing;
    if width <= gaps {
        0
    } else {
        (width - gaps) as nat
    }
}

/// Width of one tile: the usable width shared evenly between the columns.
pub open spec fn tile_width(width: nat, min_width: nat, spacing: nat) -> nat {
    usable_width(width, min_width, spacing) / columns(width, min_width, spacing)
}

/// Width of a tile's content at its narrowest, before the padding that the
/// theme puts on either side of it.
pub const TILE_CONTENT_WIDTH: usize = 260;

/// Narrowest tile under a theme whose small spacing is `space_s`.
pub open spec fn min_tile_width(space_s: nat) -> nat {
    TILE_CONTENT_WIDTH as nat + 2 * space_s
}

/// Index of the first tile of row `row`.
pub open spec fn row_start(row: int, cols: nat) -> int {
    row * cols
}

/// Number of rows that `count` tiles take when a row holds `cols` of them.
pub open spec fn row_count(count: nat, cols: nat) -> nat {
    if cols == 0 {
        0
    } else {
        ((count + cols - 1) / cols as int) as nat
    }
}

/// Number of tiles in row `row`: every row is full but possibly the last.
pub open spec fn row_len(count: nat, cols: nat, row: int) -> nat {
    let rest = count - row_start(row, cols);
    if rest <= 0 {
        0
    } else if rest < cols {
        rest as nat
    } else {
        cols
    }
}

/// The tiles `0..count` in reading order, `cols` to a row.
pub open spec fn row_major(count: nat, cols: nat) -> Seq<Seq<nat>> {
    Seq::new(
        row_count(count, cols),
        |row: int| Seq::new(row_len(count, cols, row), |col: int| (row_start(row, cols) + col) as nat),
    )
}

/// The rows of tiles that a vector of rows stands for.
pub open spec fn placement(rows: Seq<Vec<usize>>) -> Seq<Seq<nat>> {
    Seq::new(rows.len(), |row: int| Seq::new(rows[row]@.len(), |col: int| rows[row]@[col] as nat))
}

/// Geometry of a tiled grid for one layout pass.
#[derive(Clone, Copy, Debug, PartialEq, Eq, Structural)]
pub struct GridMetrics {
    /// Number of columns; at least one in every layout.
    pub cols: usize,
    /// Width of each tile.
    pub item_width: usize,
    /// Gap between neighbouring columns, and between rows.
    pub column_spacing: u16,
}

impl GridMetrics {
    /// A grid always has a column to put tiles in.
    pub open spec fn wf(&self) -> bool {
        self.cols >= 1
    }

    /// Whether these are the metrics of a container `width` wide, for tiles at
    /// least `min_width` wide that stand `spacing` apart.
    pub open spec fn is_layout_of(&self, width: nat, min_width: nat, spacing: nat) -> bool {
        &&& self.cols == columns(width, min_width, spacing)
        &&& self.item_width == tile_width(width, min_width, spacing)
        &&& self.column_spacing == spacing
    }

    /// Lays out a container `width` units wide with tiles at least `min_width`
    /// wide and `column_spacing` units between neighbouring columns.
    ///
    /// There is always at least one column, and the tiles together with the
    /// gaps between them never reach past the container.
    pub fn new(width: usize, min_width: usize, column_spacing: u16) -> (metrics: Self)
        requires
            min_width > 0,
        ensures
            metrics.is_layout_of(width as nat, min_width as nat, column_spacing as nat),
            metrics.wf(),
            metrics.cols * metrics.item_width + (metrics.cols - 1) * metrics.column_spacing
                <= width,
    {
        proof {
            lemma_extra_columns_fit(width as nat, min_width as nat, column_spacing as nat);
            lemma_fits_container(width as nat, min_width as nat, column_spacing as nat);
        }
        let width_m1 = width.checked_sub(min_width).unwrap_or(0);
        let cols_m1 = match min_width.checked_add(column_spacing as usize) {
            Some(step) => width_m1 / step,
            None => {
                // A step wider than any container leaves room for no extra column.
                assert(width_m1 as int / (min_width + column_spacing) == 0) by (nonlinear_arith)
                    requires
                        0 <= width_m1 < min_width + column_spacing,
                ;
                0
            },
        };
        let cols = cols_m1 + 1;
        let gaps = cols_m1 * column_spacing as usize;
        let item_width = width.checked_sub(gaps).unwrap_or(0).checked_div(cols).unwrap_or(0);
        Self { cols, item_width, column_spacing }
    }

    /// Lays out a container `width` units wide under a theme whose small
    /// spacing is `space_s`: the spacing pads each tile on both sides and
    /// separates the columns.
    pub fn for_tiles(width: usize, space_s: u16) -> (metrics: Self)
        ensures
            metrics.is_layout_of(width as nat, min_tile_width(space_s as nat), space_s as nat),
            metrics.wf(),
            metrics.cols * metrics.item_width + (metrics.cols - 1) * metrics.column_spacing
                <= width,
    {
        Self::new(width, TILE_CONTENT_WIDTH + 2 * space_s as usize, space_s)
    }

    /// Places the tiles `0..count` row by row: a new row starts whenever the
    /// current one holds a tile in every column.
    pub fn rows(&self, count: usize) -> (rows: Vec<Vec<usize>>)
        requires
            self.wf(),
        ensures
            placement(rows@) == row_major(count as nat, self.cols as nat),
    {
        let mut rows: Vec<Vec<usize>> = Vec::new();
        let mut row: Vec<usize> = Vec::new();
        let mut index: usize = 0;
        proof {
            lemma_row_start(0, self.cols as nat);
        }
        while index < count
            invariant
                self.cols >= 1,
                index <= count,
                row@.len() <= self.cols,
                index > 0 ==> row@.len() >= 1,
                index == 0 ==> rows@.len() == 0,
                row_start(rows@.len() as int, self.cols as nat) + row@.len() == index,
                forall|r: int| 0 <= r < rows@.len() ==> (#[trigger] rows@[r])@.len() == self.cols,
                forall|r: int, c: int|
                    0 <= r < rows@.len() && 0 <= c < self.cols ==> #[trigger] rows@[r]@[c]
                        == row_start(r, self.cols as nat) + c,
                forall|c: int|
                    0 <= c < row@.len() ==> #[trigger] row@[c] == row_start(
                        rows@.len() as int,
                        self.cols as nat,
                    ) + c,
            decreases count - index,
        {
            if row.len() >= self.cols {
                proof {
                    lemma_row_start(rows@.len() as int + 1, self.cols as nat);
                }
                rows.push(row);
                row = Vec::new();
            }
            row.push(index);
            index += 1;
        }
        let ghost full = rows@.len();
        let ghost last = row@.len();
        if row.len() > 0 {
            rows.push(row);
        }
        proof {
            // The loop left `full` full rows behind and `last` tiles in the
            // row it was filling: that is the shape of the reading order.
            let cols = self.cols as nat;
            lemma_row_shape(count as nat, cols, full, last);
            assert forall|r: int| 0 <= r < rows@.len() implies (#[trigger] rows@[r])@.len()
                == row_len(count as nat, cols, r) by {
                lemma_row_shape_at(count as nat, cols, full, last, r);
            }
            assert forall|r: int| 0 <= r < rows@.len() implies #[trigger] placement(rows@)[r]
                =~= row_major(count as nat, cols)[r] by {
                assert(rows@[r]@.len() == row_len(count as nat, cols, r));
            }
        }
        rows
    }
}

/// The tiles and the gaps between them never reach past the container.
pub proof fn lemma_fits_container(width: nat, min_width: nat, spacing: nat)
    requires
        min_width > 0,
    ensures
        columns(width, min_width, spacing) * tile_width(width, min_width, spacing) + (columns(
            width,
            min_width,
            spacing,
        ) - 1) * spacing <= width,
{
    lemma_extra_columns_fit(width, min_width, spacing);
    let cols = columns(width, min_width, spacing);
    let usable = usable_width(width, min_width, spacing);
    let tile = tile_width(width, min_width, spacing);
    assert(cols * tile <= usable) by (nonlinear_arith)
        requires
            tile == usable / cols,
            cols > 0,
    ;
}

/// What stays unused at the end of a row is less than one unit per column:
/// the tiles are as wide as whole units allow.
pub proof fn lemma_no_slack(width: nat, min_width: nat, spacing: nat)
    requires
        min_width > 0,
    ensures
        width - (columns(width, min_width, spacing) * tile_width(width, min_width, spacing)
            + (columns(width, min_width, spacing) - 1) * spacing) < columns(
            width,
            min_width,
            spacing,
        ),
{
    lemma_extra_columns_fit(width, min_width, spacing);
    let cols = columns(width, min_width, spacing);
    let usable = usable_width(width, min_width, spacing);
    let tile = tile_width(width, min_width, spacing);
    assert(usable - cols * tile < cols) by (nonlinear_arith)
        requires
            tile == usable / cols,
            cols > 0,
            usable >= 0,
    ;
}

/// A wider container never has fewer columns.
pub proof fn lemma_columns_monotonic(narrow: nat, wide: nat, min_width: nat, spacing: nat)
    requires
        min_width > 0,
        narrow <= wide,
    ensures
        columns(narrow, min_width, spacing) <= columns(wide, min_width, spacing),
{
    if narrow > min_width {
        let step = min_width + spacing;
        assert((narrow - min_width) / (step as int) <= (wide - min_width) / (step as int))
            by (nonlinear_arith)
            requires
                narrow <= wide,
                step > 0,
        ;
    }
}

/// In a container that holds at least one tile of the minimum width, the
/// column count is the largest for which every tile can have that width: the
/// columns fit at minimum width, and one more column would not.
pub proof fn lemma_columns_maximal(width: nat, min_width: nat, spacing: nat)
    requires
        min_width > 0,
        width >= min_width,
    ensures
        columns(width, min_width, spacing) * min_width + (columns(width, min_width, spacing) - 1)
            * spacing <= width,
        width < (columns(width, min_width, spacing) + 1) * min_width + columns(
            width,
            min_width,
            spacing,
        ) * spacing,
        tile_width(width, min_width, spacing) >= min_width,
{
    lemma_extra_columns_fit(width, min_width, spacing);
    let extra = extra_columns(width, min_width, spacing);
    let cols = columns(width, min_width, spacing);
    let step = min_width + spacing;
    let rest = width - min_width;
    let usable = usable_width(width, min_width, spacing);
    assert(extra * step == extra * min_width + extra * spacing && rest < (extra + 1) * step && (
    extra + 1) * step == extra * step + step) by (nonlinear_arith)
        requires
            extra == rest / (step as int),
            step == min_width + spacing,
            step > 0,
            rest >= 0,
    ;
    assert(cols * min_width == extra * min_width + min_width && (cols + 1) * min_width == cols
        * min_width + min_width && cols * spacing == extra * spacing + spacing)
        by (nonlinear_arith)
        requires
            cols == extra + 1,
    ;
    assert(usable / cols >= min_width) by (nonlinear_arith)
        requires
            usable >= cols * min_width,
            cols > 0,
    ;
}

/// The metrics depend on nothing but the three inputs: two layouts of the
/// same container are equal.
pub proof fn lemma_layout_deterministic(
    first: GridMetrics,
    second: GridMetrics,
    width: nat,
    min_width: nat,
    spacing: nat,
)
    requires
        first.is_layout_of(width, min_width, spacing),
        second.is_layout_of(width, min_width, spacing),
    ensures
        first == second,
{
}

/// Tile `index` stands in row `index / cols`, at column `index % cols`.
pub proof fn lemma_tile_position(count: nat, cols: nat, index: nat)
    requires
        cols >= 1,
        index < count,
    ensures
        index / cols < row_major(count, cols).len(),
        index % cols < row_major(count, cols)[(index / cols) as int].len(),
        row_major(count, cols)[(index / cols) as int][(index % cols) as int] == index,
{
    let row = index / cols;
    let col = index % cols;
    assert(index == row * cols + col && 0 <= col < cols && row >= 0) by (nonlinear_arith)
        requires
            row == index / cols,
            col == index % cols,
            cols >= 1,
    ;
    assert(row < (count + cols - 1) / (cols as int)) by (nonlinear_arith)
        requires
            index == row * cols + col,
            0 <= col < cols,
            index < count,
            cols >= 1,
    ;
}

/// The extra columns, each with its gap, fit in what the first tile leaves
/// free. So the gaps alone never exceed the container, and there are fewer
/// extra columns than units of width.
proof fn lemma_extra_columns_fit(width: nat, min_width: nat, spacing: nat)
    requires
        min_width > 0,
    ensures
        width >= min_width ==> extra_columns(width, min_width, spacing) * (min_width + spacing)
            + min_width <= width,
        extra_columns(width, min_width, spacing) * spacing <= width,
        width > 0 ==> extra_columns(width, min_width, spacing) < width,
{
    let extra = extra_columns(width, min_width, spacing);
    let step = min_width + spacing;
    if width > min_width {
        let rest = width - min_width;
        assert(extra * step <= rest && extra * spacing <= extra * step && extra <= rest)
            by (nonlinear_arith)
            requires
                extra == rest / (step as int),
                step == min_width + spacing,
                min_width > 0,
                rest >= 0,
        ;
    } else {
        assert(extra * step == 0 && extra * spacing == 0) by (nonlinear_arith)
            requires
                extra == 0,
        ;
    }
}

proof fn lemma_row_start(row: int, cols: nat)
    ensures
        row_start(0, cols) == 0,
        row_start(row, cols) == row_start(row - 1, cols) + cols,
{
    assert(0 * cols == 0 && row * cols == (row - 1) * cols + cols) by (nonlinear_arith);
}

/// `full` full rows followed by a last row of `last` tiles make
/// `full + 1` rows, unless there is no tile at all.
proof fn lemma_row_shape(count: nat, cols: nat, full: nat, last: nat)
    requires
        cols >= 1,
        count == row_start(full as int, cols) + last,
        last <= cols,
        count > 0 ==> last >= 1,
    ensures
        row_count(count, cols) == if count > 0 {
            full + 1
        } else {
            0
        },
{
    if count > 0 {
        assert((full * cols + last + cols - 1) / (cols as int) == full + 1) by (nonlinear_arith)
            requires
                1 <= last <= cols,
        ;
    } else {
        assert((cols - 1) / (cols as int) == 0) by (nonlinear_arith)
            requires
                cols >= 1,
        ;
    }
}

/// In that arrangement every row before the last is full and the last holds
/// `last` tiles.
proof fn lemma_row_shape_at(count: nat, cols: nat, full: nat, last: nat, row: int)
    requires
        cols >= 1,
        count == row_start(full as int, cols) + last,
        last <= cols,
        0 <= row <= full,
    ensures
        row_len(count, cols, row) == if row < full {
            cols
        } else {
            last
        },
{
    assert(count - row * cols == (full - row) * cols + last) by (nonlinear_arith)
        requires
            count == full * cols + last,
    ;
    if row < full {
        assert((full - row) * cols >= cols) by (nonlinear_arith)
            requires
                full - row >= 1,
                cols >= 1,
        ;
    }
}

} // verus!
