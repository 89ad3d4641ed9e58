use vstd::prelude::*;
use ratatui::buffer::Buffer;
use ratatui::style::Style;
use crate::area::Area;
use crate::screen::{area_of, buffer_area, buffer_symbols, paint, put_text, text_cells};

verus! {

/// The cells that a column of the given width has for its text when it
/// starts at column `x`: its width, cut at the buffer's right edge.
pub open spec fn cell_room(bounds: Area, x: int, width: int) -> int {
    if width < bounds.right() - x {
        width
    } else {
        bounds.right() - x
    }
}

/// The cells that `count` columns from `first` on take on a line, each its
/// width and one separator cell.
pub open spec fn columns_span(widths: Seq<usize>, first: int, count: int) -> int
    decreases count,
{
    if count <= 0 {
        0
    } else {
        widths[first] + 1 + columns_span(widths, first + 1, count - 1)
    }
}

/// Whether the column `k` places after column `first` is drawn on a line of
/// `room` cells that starts with column `first`: it exists, and it fits
/// whole together with the columns before it.
pub open spec fn column_visible(widths: Seq<usize>, first: int, k: int, room: int) -> bool {
    0 <= first && 0 <= k && first + k < widths.len() && columns_span(widths, first, k + 1) <= room
}

/// The symbols after the cell of column `col` is written at (`x`, `y`).
///
/// A row that has no cell for the column leaves the place blank, and so does
/// a place outside the buffer. The text gets the column's width, cut at the
/// buffer's right edge.
pub open spec fn put_cell(
    symbols: Map<(int, int), Seq<char>>,
    bounds: Area,
    texts: Seq<String>,
    col: int,
    x: int,
    y: int,
    width: int,
) -> Map<(int, int), Seq<char>> {
    if 0 <= col < texts.len() && bounds.holds(x, y) {
        let room = cell_room(bounds, x, width);
        paint(symbols, x, y, text_cells(texts[col]@, room as nat), room)
    } else {
        symbols
    }
}

/// The symbols after one line of the grid is written: the columns from `col`
/// on, left to right from `x`, each taking its width and one separator cell,
/// as long as the next one still fits into `room` cells.
pub open spec fn draw_line(
    symbols: Map<(int, int), Seq<char>>,
    bounds: Area,
    widths: Seq<usize>,
    texts: Seq<String>,
    col: int,
    x: int,
    room: int,
    y: int,
) -> Map<(int, int), Seq<char>>
    decreases widths.len() - col,
{
    if col < 0 || col >= widths.len() || widths[col] + 1 > room {
        symbols
    } else {
        draw_line(
            put_cell(symbols, bounds, texts, col, x, y, widths[col] as int),
            bounds,
            widths,
            texts,
            col + 1,
            x + widths[col] + 1,
            room - widths[col] - 1,
            y,
        )
    }
}

/// The symbols after up to `count` rows are written, one per line from `y`
/// down, starting with row `row`.
pub open spec fn draw_rows(
    symbols: Map<(int, int), Seq<char>>,
    bounds: Area,
    widths: Seq<usize>,
    rows: Seq<Vec<String>>,
    row: int,
    count: int,
    col: int,
    x: int,
    room: int,
    y: int,
) -> Map<(int, int), Seq<char>>
    decreases count,
{
    if count <= 0 || row < 0 || row >= rows.len() {
        symbols
    } else {
        draw_rows(
            draw_line(symbols, bounds, widths, rows[row]@, col, x, room, y),
            bounds,
            widths,
            rows,
            row + 1,
            count - 1,
            col,
            x,
            room,
            y + 1,
        )
    }
}

/// Whether `p` lies on one of `count` lines from `y` down, within `room`
/// columns from `x`.
pub open spec fn in_window(p: (int, int), x: int, room: int, y: int, count: int) -> bool {
    x <= p.0 < x + room && y <= p.1 < y + count
}

/// A written line keeps the buffer's positions and changes symbols only on
/// its own line, within its room and within the buffer.
pub proof fn lemma_draw_line_frame(
    symbols: Map<(int, int), Seq<char>>,
    bounds: Area,
    widths: Seq<usize>,
    texts: Seq<String>,
    col: int,
    x: int,
    room: int,
    y: int,
)
    ensures
        draw_line(symbols, bounds, widths, texts, col, x, room, y).dom() == symbols.dom(),
        forall|p: (int, int)|
            symbols.dom().contains(p) && !(in_window(p, x, room, y, 1) && bounds.holds(p.0, p.1))
                ==> #[trigger] draw_line(
                symbols,
                bounds,
                widths,
                texts,
                col,
                x,
                room,
                y,
            )[p] == symbols[p],
    decreases widths.len() - col,
{
    if col < 0 || col >= widths.len() || widths[col] + 1 > room {
    } else {
        let w = widths[col] as int;
        let next = put_cell(symbols, bounds, texts, col, x, y, w);
        assert(next.dom() =~= symbols.dom());
        assert forall|p: (int, int)|
            symbols.dom().contains(p) && !(in_window(p, x, room, y, 1) && bounds.holds(p.0, p.1))
            implies next[p]
            == symbols[p] by {}
        lemma_draw_line_frame(next, bounds, widths, texts, col + 1, x + w + 1, room - w - 1, y);
    }
}

/// Written rows keep the buffer's positions and change symbols only on
/// their lines, within their room and within the buffer.
pub proof fn lemma_draw_rows_frame(
    symbols: Map<(int, int), Seq<char>>,
    bounds: Area,
    widths: Seq<usize>,
    rows: Seq<Vec<String>>,
    row: int,
    count: int,
    col: int,
    x: int,
    room: int,
    y: int,
)
    ensures
        draw_rows(symbols, bounds, widths, rows, row, count, col, x, room, y).dom()
            == symbols.dom(),
        forall|p: (int, int)|
            symbols.dom().contains(p) && !(in_window(p, x, room, y, count) && bounds.holds(p.0, p.1))
                ==> #[trigger] draw_rows(
                symbols,
                bounds,
                widths,
                rows,
                row,
                count,
                col,
                x,
                room,
                y,
            )[p] == symbols[p],
    decreases count,
{
    if count <= 0 || row < 0 || row >= rows.len() {
    } else {
        let next = draw_line(symbols, bounds, widths, rows[row]@, col, x, room, y);
        lemma_draw_line_frame(symbols, bounds, widths, rows[row]@, col, x, room, y);
        lemma_draw_rows_frame(next, bounds, widths, rows, row + 1, count - 1, col, x, room, y + 1);
    }
}

/// Columns take no negative number of cells.
pub proof fn lemma_columns_span_nonneg(widths: Seq<usize>, first: int, count: int)
    ensures
        columns_span(widths, first, count) >= 0,
    decreases count,
{
    if count > 0 {
        lemma_columns_span_nonneg(widths, first + 1, count - 1);
    }
}

/// On a written line, the slot of every visible column shows what writing
/// that column's cell alone would show.
///
/// The column `k` places after `col` starts where the columns before it
/// end; its slot is its width and the separator cell. Where the line has a
/// cell for the column, the slot starts with what the cell's text puts into
/// the column's room; the rest of the slot, and the whole slot of a missing
/// cell, still shows what was there before.
pub proof fn lemma_draw_line_slot(
    symbols: Map<(int, int), Seq<char>>,
    bounds: Area,
    widths: Seq<usize>,
    texts: Seq<String>,
    col: int,
    x: int,
    room: int,
    y: int,
    k: int,
    j: int,
)
    requires
        column_visible(widths, col, k, room),
        0 <= j <= widths[col + k],
        symbols.dom().contains((x + columns_span(widths, col, k) + j, y)),
    ensures
        draw_line(symbols, bounds, widths, texts, col, x, room, y)[(
            x + columns_span(widths, col, k) + j,
            y,
        )] == put_cell(
            symbols,
            bounds,
            texts,
            col + k,
            x + columns_span(widths, col, k),
            y,
            widths[col + k] as int,
        )[(x + columns_span(widths, col, k) + j, y)],
    decreases k,
{
    let w = widths[col] as int;
    lemma_columns_span_nonneg(widths, col + 1, k);
    assert(columns_span(widths, col, k + 1) == w + 1 + columns_span(widths, col + 1, k));
    let next = put_cell(symbols, bounds, texts, col, x, y, w);
    assert(next.dom() =~= symbols.dom());
    assert(draw_line(symbols, bounds, widths, texts, col, x, room, y) == draw_line(
        next,
        bounds,
        widths,
        texts,
        col + 1,
        x + w + 1,
        room - w - 1,
        y,
    ));
    if k == 0 {
        assert(columns_span(widths, col, 0) == 0);
        lemma_draw_line_frame(next, bounds, widths, texts, col + 1, x + w + 1, room - w - 1, y);
    } else {
        assert(columns_span(widths, col, k) == w + 1 + columns_span(widths, col + 1, k - 1));
        lemma_columns_span_nonneg(widths, col + 1, k - 1);
        lemma_draw_line_slot(
            next,
            bounds,
            widths,
            texts,
            col + 1,
            x + w + 1,
            room - w - 1,
            y,
            k - 1,
            j,
        );
    }
}

/// On written rows, the slot of every visible column on every written line
/// shows what writing that cell alone would show: line `i` below the first
/// holds row `row + i`, laid out as a written line.
pub proof fn lemma_draw_rows_slot(
    symbols: Map<(int, int), Seq<char>>,
    bounds: Area,
    widths: Seq<usize>,
    rows: Seq<Vec<String>>,
    row: int,
    count: int,
    col: int,
    x: int,
    room: int,
    y: int,
    i: int,
    k: int,
    j: int,
)
    requires
        0 <= row,
        0 <= i < count,
        row + i < rows.len(),
        column_visible(widths, col, k, room),
        0 <= j <= widths[col + k],
        symbols.dom().contains((x + columns_span(widths, col, k) + j, y + i)),
    ensures
        draw_rows(symbols, bounds, widths, rows, row, count, col, x, room, y)[(
            x + columns_span(widths, col, k) + j,
            y + i,
        )] == put_cell(
            symbols,
            bounds,
            rows[row + i]@,
            col + k,
            x + columns_span(widths, col, k),
            y + i,
            widths[col + k] as int,
        )[(x + columns_span(widths, col, k) + j, y + i)],
    decreases i,
{
    let next = draw_line(symbols, bounds, widths, rows[row]@, col, x, room, y);
    lemma_draw_line_frame(symbols, bounds, widths, rows[row]@, col, x, room, y);
    assert(draw_rows(symbols, bounds, widths, rows, row, count, col, x, room, y) == draw_rows(
        next,
        bounds,
        widths,
        rows,
        row + 1,
        count - 1,
        col,
        x,
        room,
        y + 1,
    ));
    if i == 0 {
        lemma_draw_line_slot(symbols, bounds, widths, rows[row]@, col, x, room, y, k, j);
        lemma_draw_rows_frame(
            next,
            bounds,
            widths,
            rows,
            row + 1,
            count - 1,
            col,
            x,
            room,
            y + 1,
        );
    } else {
        lemma_draw_rows_slot(
            next,
            bounds,
            widths,
            rows,
            row + 1,
            count - 1,
            col,
            x,
            room,
            y + 1,
            i - 1,
            k,
            j,
        );
    }
}

/// The number of columns drawn on a line of `room` cells that starts with
/// column `col`.
pub open spec fn visible_columns(widths: Seq<usize>, col: int, room: int) -> int
    decreases widths.len() - col,
{
    if col < 0 || col >= widths.len() || widths[col] + 1 > room {
        0
    } else {
        1 + visible_columns(widths, col + 1, room - widths[col] - 1)
    }
}

/// The number of rows drawn on `count` lines that start with row `row` of
/// `len` rows.
pub open spec fn visible_rows(len: int, row: int, count: int) -> int {
    if row < 0 || row >= len || count <= 0 {
        0
    } else if count < len - row {
        count
    } else {
        len - row
    }
}

/// A line draws no negative number of columns.
pub proof fn lemma_visible_columns_nonneg(widths: Seq<usize>, col: int, room: int)
    ensures
        visible_columns(widths, col, room) >= 0,
    decreases widths.len() - col,
{
    if !(col < 0 || col >= widths.len() || widths[col] + 1 > room) {
        lemma_visible_columns_nonneg(widths, col + 1, room - widths[col] - 1);
    }
}

/// The visible columns are the first `visible_columns` ones.
pub proof fn lemma_visible_columns(widths: Seq<usize>, col: int, k: int, room: int)
    requires
        0 <= col,
        0 <= k,
    ensures
        column_visible(widths, col, k, room) == (k < visible_columns(widths, col, room)),
    decreases k,
{
    lemma_columns_span_nonneg(widths, col + 1, k);
    if col >= widths.len() {
    } else {
        let w = widths[col] as int;
        assert(columns_span(widths, col, k + 1) == w + 1 + columns_span(widths, col + 1, k));
        if w + 1 > room {
        } else {
            lemma_visible_columns_nonneg(widths, col + 1, room - w - 1);
            if k == 0 {
                assert(columns_span(widths, col + 1, 0) == 0);
            } else {
                lemma_visible_columns(widths, col + 1, k - 1, room - w - 1);
            }
        }
    }
}

/// Right of the last visible column a written line changes nothing.
pub proof fn lemma_draw_line_tail(
    symbols: Map<(int, int), Seq<char>>,
    bounds: Area,
    widths: Seq<usize>,
    texts: Seq<String>,
    col: int,
    x: int,
    room: int,
    y: int,
    p: (int, int),
)
    requires
        symbols.dom().contains(p),
        p.0 >= x + columns_span(widths, col, visible_columns(widths, col, room)),
    ensures
        draw_line(symbols, bounds, widths, texts, col, x, room, y)[p] == symbols[p],
    decreases widths.len() - col,
{
    if col < 0 || col >= widths.len() || widths[col] + 1 > room {
    } else {
        let w = widths[col] as int;
        let rest = visible_columns(widths, col + 1, room - w - 1);
        lemma_visible_columns_nonneg(widths, col + 1, room - w - 1);
        lemma_columns_span_nonneg(widths, col + 1, rest);
        assert(columns_span(widths, col, 1 + rest) == w + 1 + columns_span(widths, col + 1, rest));
        let next = put_cell(symbols, bounds, texts, col, x, y, w);
        assert(next.dom() =~= symbols.dom());
        lemma_draw_line_tail(next, bounds, widths, texts, col + 1, x + w + 1, room - w - 1, y, p);
    }
}

/// Right of the last visible column written rows change nothing.
pub proof fn lemma_draw_rows_right(
    symbols: Map<(int, int), Seq<char>>,
    bounds: Area,
    widths: Seq<usize>,
    rows: Seq<Vec<String>>,
    row: int,
    count: int,
    col: int,
    x: int,
    room: int,
    y: int,
    p: (int, int),
)
    requires
        symbols.dom().contains(p),
        p.0 >= x + columns_span(widths, col, visible_columns(widths, col, room)),
    ensures
        draw_rows(symbols, bounds, widths, rows, row, count, col, x, room, y)[p] == symbols[p],
    decreases count,
{
    if count <= 0 || row < 0 || row >= rows.len() {
    } else {
        let next = draw_line(symbols, bounds, widths, rows[row]@, col, x, room, y);
        lemma_draw_line_tail(symbols, bounds, widths, rows[row]@, col, x, room, y, p);
        lemma_draw_line_frame(symbols, bounds, widths, rows[row]@, col, x, room, y);
        lemma_draw_rows_right(next, bounds, widths, rows, row + 1, count - 1, col, x, room, y + 1, p);
    }
}

/// Below the last visible row written rows change nothing.
pub proof fn lemma_draw_rows_below(
    symbols: Map<(int, int), Seq<char>>,
    bounds: Area,
    widths: Seq<usize>,
    rows: Seq<Vec<String>>,
    row: int,
    count: int,
    col: int,
    x: int,
    room: int,
    y: int,
    p: (int, int),
)
    requires
        symbols.dom().contains(p),
        p.1 >= y + visible_rows(rows.len() as int, row, count),
    ensures
        draw_rows(symbols, bounds, widths, rows, row, count, col, x, room, y)[p] == symbols[p],
    decreases count,
{
    if count <= 0 || row < 0 || row >= rows.len() {
    } else {
        let next = draw_line(symbols, bounds, widths, rows[row]@, col, x, room, y);
        lemma_draw_line_frame(symbols, bounds, widths, rows[row]@, col, x, room, y);
        lemma_draw_rows_below(next, bounds, widths, rows, row + 1, count - 1, col, x, room, y + 1, p);
    }
}

/// Whether two drawings agree at `p`, or each still shows there what it
/// started from.
pub open spec fn settled(
    first_after: Map<(int, int), Seq<char>>,
    second_after: Map<(int, int), Seq<char>>,
    first: Map<(int, int), Seq<char>>,
    second: Map<(int, int), Seq<char>>,
    p: (int, int),
) -> bool {
    first_after[p] == second_after[p] || (first_after[p] == first[p] && second_after[p]
        == second[p])
}

/// What a written line puts into a cell does not depend on what the cell
/// showed before: on two buffers of the same positions, every cell ends up
/// the same in both or untouched in both.
pub proof fn lemma_draw_line_settles(
    first: Map<(int, int), Seq<char>>,
    second: Map<(int, int), Seq<char>>,
    bounds: Area,
    widths: Seq<usize>,
    texts: Seq<String>,
    col: int,
    x: int,
    room: int,
    y: int,
)
    requires
        first.dom() == second.dom(),
    ensures
        forall|p: (int, int)|
            first.dom().contains(p) ==> #[trigger] settled(
                draw_line(first, bounds, widths, texts, col, x, room, y),
                draw_line(second, bounds, widths, texts, col, x, room, y),
                first,
                second,
                p,
            ),
    decreases widths.len() - col,
{
    if col < 0 || col >= widths.len() || widths[col] + 1 > room {
    } else {
        let w = widths[col] as int;
        let first_next = put_cell(first, bounds, texts, col, x, y, w);
        let second_next = put_cell(second, bounds, texts, col, x, y, w);
        assert(first_next.dom() =~= first.dom());
        assert(second_next.dom() =~= second.dom());
        lemma_draw_line_settles(
            first_next,
            second_next,
            bounds,
            widths,
            texts,
            col + 1,
            x + w + 1,
            room - w - 1,
            y,
        );
        let first_after = draw_line(first, bounds, widths, texts, col, x, room, y);
        let second_after = draw_line(second, bounds, widths, texts, col, x, room, y);
        assert(first_after == draw_line(
            first_next,
            bounds,
            widths,
            texts,
            col + 1,
            x + w + 1,
            room - w - 1,
            y,
        ));
        assert(second_after == draw_line(
            second_next,
            bounds,
            widths,
            texts,
            col + 1,
            x + w + 1,
            room - w - 1,
            y,
        ));
        assert forall|p: (int, int)| first.dom().contains(p) implies #[trigger] settled(
            first_after,
            second_after,
            first,
            second,
            p,
        ) by {
            assert(settled(first_after, second_after, first_next, second_next, p));
        }
    }
}

/// What written rows put into a cell does not depend on what the cell
/// showed before.
pub proof fn lemma_draw_rows_settles(
    first: Map<(int, int), Seq<char>>,
    second: Map<(int, int), Seq<char>>,
    bounds: Area,
    widths: Seq<usize>,
    rows: Seq<Vec<String>>,
    row: int,
    count: int,
    col: int,
    x: int,
    room: int,
    y: int,
)
    requires
        first.dom() == second.dom(),
    ensures
        forall|p: (int, int)|
            first.dom().contains(p) ==> #[trigger] settled(
                draw_rows(first, bounds, widths, rows, row, count, col, x, room, y),
                draw_rows(second, bounds, widths, rows, row, count, col, x, room, y),
                first,
                second,
                p,
            ),
    decreases count,
{
    if count <= 0 || row < 0 || row >= rows.len() {
    } else {
        let first_next = draw_line(first, bounds, widths, rows[row]@, col, x, room, y);
        let second_next = draw_line(second, bounds, widths, rows[row]@, col, x, room, y);
        lemma_draw_line_frame(first, bounds, widths, rows[row]@, col, x, room, y);
        lemma_draw_line_frame(second, bounds, widths, rows[row]@, col, x, room, y);
        lemma_draw_line_settles(first, second, bounds, widths, rows[row]@, col, x, room, y);
        lemma_draw_rows_settles(
            first_next,
            second_next,
            bounds,
            widths,
            rows,
            row + 1,
            count - 1,
            col,
            x,
            room,
            y + 1,
        );
        let first_after = draw_rows(first, bounds, widths, rows, row, count, col, x, room, y);
        let second_after = draw_rows(second, bounds, widths, rows, row, count, col, x, room, y);
        assert(first_after == draw_rows(
            first_next,
            bounds,
            widths,
            rows,
            row + 1,
            count - 1,
            col,
            x,
            room,
            y + 1,
        ));
        assert(second_after == draw_rows(
            second_next,
            bounds,
            widths,
            rows,
            row + 1,
            count - 1,
            col,
            x,
            room,
            y + 1,
        ));
        assert forall|p: (int, int)| first.dom().contains(p) implies #[trigger] settled(
            first_after,
            second_after,
            first,
            second,
            p,
        ) by {
            assert(settled(first_after, second_after, first_next, second_next, p));
            assert(settled(first_next, second_next, first, second, p));
        }
    }
}

/// Writes one line of the grid into the buffer: the cells of `texts` in the
/// columns from `first` on that fit into the area's width, on line `y`.
pub(crate) fn write_line(
    buf: &mut Buffer,
    widths: &Vec<usize>,
    texts: &Vec<String>,
    first: usize,
    area: &Area,
    y: usize,
    style: &Style,
)
    ensures
        buffer_area(*final(buf)) == buffer_area(*old(buf)),
        buffer_symbols(*final(buf)) == draw_line(
            buffer_symbols(*old(buf)),
            buffer_area(*old(buf)),
            widths@,
            texts@,
            first as int,
            area.x as int,
            area.width as int,
            y as int,
        ),
{
    let bounds = area_of(buf);
    let right: u16 = bounds.right_edge();
    let mut col: usize = first;
    let mut x: usize = area.x as usize;
    let mut room: usize = area.width as usize;
    while col < widths.len() && widths[col] < room
        invariant
            buffer_area(*buf) == bounds,
            bounds == buffer_area(*old(buf)),
            right == bounds.right(),
            x + room == area.x + area.width,
            room <= area.width,
            draw_line(
                buffer_symbols(*buf),
                bounds,
                widths@,
                texts@,
                col as int,
                x as int,
                room as int,
                y as int,
            ) == draw_line(
                buffer_symbols(*old(buf)),
                bounds,
                widths@,
                texts@,
                first as int,
                area.x as int,
                area.width as int,
                y as int,
            ),
        decreases widths@.len() - col,
    {
        let w: usize = widths[col];
        if col < texts.len() && bounds.contains(x, y) {
            let free: usize = right as usize - x;
            let span: usize = if w < free {
                w
            } else {
                free
            };
            put_text(buf, x as u16, y as u16, texts[col].as_str(), span as u16, style);
        }
        x = x + w + 1;
        room = room - w - 1;
        col = col + 1;
    }
}

} // verus!
