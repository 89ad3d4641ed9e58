use vstd::prelude::*;
use ratatui::buffer::Buffer;
use ratatui::style::Style;
use ratatui::widgets::Block;
use crate::area::Area;
use crate::screen::{buffer_area, buffer_symbols, fill_style, plain_style};
use crate::window::{
    column_visible, columns_span, draw_line, draw_rows, lemma_draw_line_frame,
    lemma_draw_line_settles, lemma_draw_line_slot, lemma_draw_line_tail, lemma_draw_rows_below,
    lemma_draw_rows_frame, lemma_draw_rows_right, lemma_draw_rows_settles, lemma_draw_rows_slot,
    put_cell, settled, visible_columns, visible_rows, write_line,
};
use crate::width::{display_width, str_width};

verus! {

/// Scroll position of a grid: the first visible column and the first visible row.
#[derive(Debug, Clone)]
pub struct TableState {
    pub offset_x: usize,
    pub offset_y: usize,
}

impl Default for TableState {
    fn default() -> (s: Self)
        ensures
            s.offset_x == 0,
            s.offset_y == 0,
    {
        Self { offset_x: 0, offset_y: 0 }
    }
}

/// Display width of the cell in column `i` of a row; a missing cell has width 0.
pub open spec fn cell_width(row: Seq<String>, i: int) -> nat {
    if 0 <= i < row.len() {
        display_width(row[i]@)
    } else {
        0
    }
}

/// The widest cell in column `i` among the first `upto` rows.
pub open spec fn rows_width(rows: Seq<Vec<String>>, i: int, upto: int) -> nat
    decreases upto,
{
    if upto <= 0 {
        0
    } else {
        let rest = rows_width(rows, i, upto - 1);
        let here = cell_width(rows[upto - 1]@, i);
        if here > rest {
            here
        } else {
            rest
        }
    }
}

/// The width of column `i`: that of its header or of its widest cell.
pub open spec fn column_width(headers: Seq<String>, rows: Seq<Vec<String>>, i: int) -> nat {
    let head = display_width(headers[i]@);
    let body = rows_width(rows, i, rows.len() as int);
    if head > body {
        head
    } else {
        body
    }
}

/// The widest cell among the first `upto` rows is at least as wide as each of them.
pub proof fn lemma_rows_width_covers(rows: Seq<Vec<String>>, i: int, upto: int, r: int)
    requires
        0 <= r < upto <= rows.len(),
    ensures
        rows_width(rows, i, upto) >= cell_width(rows[r]@, i),
    decreases upto,
{
    if r < upto - 1 {
        lemma_rows_width_covers(rows, i, upto - 1, r);
    }
}

/// A batch of result rows as display text, with the width of each column.
#[derive(Debug, Clone)]
pub struct Table {
    pub headers: Vec<String>,
    pub rows: Vec<Vec<String>>,
    pub widths: Vec<usize>,
    /// The frame that whoever places the grid draws around it.
    pub block: Option<Block<'static>>,
    pub style: Style,
    pub header_style: Style,
}

impl Table {
    /// One width per header, each the width of its column.
    pub open spec fn wf(&self) -> bool {
        &&& self.widths@.len() == self.headers@.len()
        &&& forall|i: int|
            0 <= i < self.widths@.len() ==> #[trigger] self.widths@[i] as nat == column_width(
                self.headers@,
                self.rows@,
                i,
            )
    }

    /// The grid without headers and rows.
    pub fn default() -> (t: Self)
        ensures
            t.headers@.len() == 0,
            t.rows@.len() == 0,
            t.widths@.len() == 0,
            t.block.is_none(),
            t.wf(),
    {
        Self {
            headers: Vec::new(),
            rows: Vec::new(),
            widths: Vec::new(),
            block: None,
            style: plain_style(),
            header_style: plain_style(),
        }
    }

    pub fn is_empty(&self) -> (e: bool)
        ensures
            e == (self.headers@.len() == 0 && self.rows@.len() == 0),
    {
        self.headers.len() == 0 && self.rows.len() == 0
    }

    /// Measures column `i` over all rows.
    fn measure_column(headers: &Vec<String>, rows: &Vec<Vec<String>>, i: usize) -> (w: usize)
        requires
            i < headers@.len(),
        ensures
            w as nat == column_width(headers@, rows@, i as int),
    {
        let mut body: usize = 0;
        let mut r: usize = 0;
        while r < rows.len()
            invariant
                r <= rows@.len(),
                body as nat == rows_width(rows@, i as int, r as int),
            decreases rows@.len() - r,
        {
            let row = &rows[r];
            if i < row.len() {
                let here: usize = str_width(row[i].as_str());
                if here > body {
                    body = here;
                }
            }
            r += 1;
        }
        let head: usize = str_width(headers[i].as_str());
        if head > body {
            head
        } else {
            body
        }
    }

    /// Builds the grid of a batch and measures its columns once.
    pub fn new(headers: Vec<String>, rows: Vec<Vec<String>>) -> (t: Self)
        ensures
            t.headers == headers,
            t.rows == rows,
            t.block.is_none(),
            t.wf(),
    {
        let mut widths: Vec<usize> = Vec::new();
        let mut i: usize = 0;
        while i < headers.len()
            invariant
                i <= headers@.len(),
                widths@.len() == i,
                forall|k: int|
                    0 <= k < i ==> #[trigger] widths@[k] as nat == column_width(
                        headers@,
                        rows@,
                        k,
                    ),
            decreases headers@.len() - i,
        {
            let w: usize = Self::measure_column(&headers, &rows, i);
            widths.push(w);
            i += 1;
        }
        Self { headers, rows, widths, block: None, style: plain_style(), header_style: plain_style() }
    }

    /// The symbols of a buffer after the grid is drawn into `area` of it.
    ///
    /// Nothing is drawn into an area without width or height. Otherwise the
    /// headers take the area's first line and the rows from `state.offset_y`
    /// on take the lines below it, one each, while lines are left. On every
    /// line the columns from `state.offset_x` on are laid out left to right
    /// as long as the next one fits whole.
    pub open spec fn rendered(
        &self,
        area: Area,
        state: TableState,
        bounds: Area,
        symbols: Map<(int, int), Seq<char>>,
    ) -> Map<(int, int), Seq<char>> {
        if area.width == 0 || area.height == 0 {
            symbols
        } else {
            let head = draw_line(
                symbols,
                bounds,
                self.widths@,
                self.headers@,
                state.offset_x as int,
                area.x as int,
                area.width as int,
                area.y as int,
            );
            draw_rows(
                head,
                bounds,
                self.widths@,
                self.rows@,
                state.offset_y as int,
                area.height - 1,
                state.offset_x as int,
                area.x as int,
                area.width as int,
                area.y + 1,
            )
        }
    }

    /// Drawing keeps the buffer's positions and changes no symbol outside
    /// the area, whatever the grid's size and the scroll offsets.
    pub proof fn lemma_render_stays_inside(
        &self,
        area: Area,
        state: TableState,
        bounds: Area,
        symbols: Map<(int, int), Seq<char>>,
    )
        ensures
            self.rendered(area, state, bounds, symbols).dom() == symbols.dom(),
            forall|p: (int, int)|
                symbols.dom().contains(p) && !area.holds(p.0, p.1) ==> #[trigger] self.rendered(
                    area,
                    state,
                    bounds,
                    symbols,
                )[p] == symbols[p],
    {
        if area.width == 0 || area.height == 0 {
        } else {
            let head = draw_line(
                symbols,
                bounds,
                self.widths@,
                self.headers@,
                state.offset_x as int,
                area.x as int,
                area.width as int,
                area.y as int,
            );
            lemma_draw_line_frame(
                symbols,
                bounds,
                self.widths@,
                self.headers@,
                state.offset_x as int,
                area.x as int,
                area.width as int,
                area.y as int,
            );
            lemma_draw_rows_frame(
                head,
                bounds,
                self.widths@,
                self.rows@,
                state.offset_y as int,
                area.height - 1,
                state.offset_x as int,
                area.x as int,
                area.width as int,
                area.y + 1,
            );
        }
    }

    /// The slot of every visible column on the area's first line shows what
    /// writing that column's header alone would show.
    ///
    /// The column `k` places after the first visible one starts where the
    /// columns before it end; its slot is its width and the separator cell.
    /// The slot starts with what the header's text puts into the column's
    /// cells; the rest of it still shows what was there before, and so does
    /// the whole slot of a column without header.
    pub proof fn lemma_rendered_header(
        &self,
        area: Area,
        state: TableState,
        bounds: Area,
        symbols: Map<(int, int), Seq<char>>,
        k: int,
        j: int,
    )
        requires
            area.width > 0,
            area.height > 0,
            column_visible(self.widths@, state.offset_x as int, k, area.width as int),
            0 <= j <= self.widths@[state.offset_x + k],
            symbols.dom().contains(
                (area.x + columns_span(self.widths@, state.offset_x as int, k) + j, area.y as int),
            ),
        ensures
            self.rendered(area, state, bounds, symbols)[(
                area.x + columns_span(self.widths@, state.offset_x as int, k) + j,
                area.y as int,
            )] == put_cell(
                symbols,
                bounds,
                self.headers@,
                state.offset_x + k,
                area.x + columns_span(self.widths@, state.offset_x as int, k),
                area.y as int,
                self.widths@[state.offset_x + k] as int,
            )[(area.x + columns_span(self.widths@, state.offset_x as int, k) + j, area.y as int)],
    {
        let ox = state.offset_x as int;
        let ax = area.x as int;
        let aw = area.width as int;
        let ay = area.y as int;
        let head = draw_line(symbols, bounds, self.widths@, self.headers@, ox, ax, aw, ay);
        lemma_draw_line_slot(symbols, bounds, self.widths@, self.headers@, ox, ax, aw, ay, k, j);
        lemma_draw_line_frame(symbols, bounds, self.widths@, self.headers@, ox, ax, aw, ay);
        lemma_draw_rows_frame(
            head,
            bounds,
            self.widths@,
            self.rows@,
            state.offset_y as int,
            area.height - 1,
            ox,
            ax,
            aw,
            ay + 1,
        );
    }

    /// The slot of every visible column on every line of a visible row shows
    /// what writing that cell alone would show.
    ///
    /// Line `i` below the headers holds row `state.offset_y + i`; on it the
    /// column `k` places after the first visible one starts where the
    /// columns before it end. Where the row has a cell for the column, the
    /// slot starts with what the cell's text puts into the column's cells;
    /// the rest of the slot, and the whole slot of a missing cell, still
    /// shows what was there before.
    pub proof fn lemma_rendered_cell(
        &self,
        area: Area,
        state: TableState,
        bounds: Area,
        symbols: Map<(int, int), Seq<char>>,
        i: int,
        k: int,
        j: int,
    )
        requires
            area.width > 0,
            0 <= i < area.height - 1,
            state.offset_y + i < self.rows@.len(),
            column_visible(self.widths@, state.offset_x as int, k, area.width as int),
            0 <= j <= self.widths@[state.offset_x + k],
            symbols.dom().contains(
                (
                    area.x + columns_span(self.widths@, state.offset_x as int, k) + j,
                    area.y + 1 + i,
                ),
            ),
        ensures
            self.rendered(area, state, bounds, symbols)[(
                area.x + columns_span(self.widths@, state.offset_x as int, k) + j,
                area.y + 1 + i,
            )] == put_cell(
                symbols,
                bounds,
                self.rows@[state.offset_y + i]@,
                state.offset_x + k,
                area.x + columns_span(self.widths@, state.offset_x as int, k),
                area.y + 1 + i,
                self.widths@[state.offset_x + k] as int,
            )[(
                area.x + columns_span(self.widths@, state.offset_x as int, k) + j,
                area.y + 1 + i,
            )],
    {
        let ox = state.offset_x as int;
        let ax = area.x as int;
        let aw = area.width as int;
        let ay = area.y as int;
        let head = draw_line(symbols, bounds, self.widths@, self.headers@, ox, ax, aw, ay);
        lemma_draw_line_frame(symbols, bounds, self.widths@, self.headers@, ox, ax, aw, ay);
        lemma_draw_rows_slot(
            head,
            bounds,
            self.widths@,
            self.rows@,
            state.offset_y as int,
            area.height - 1,
            ox,
            ax,
            aw,
            ay + 1,
            i,
            k,
            j,
        );
    }

    /// Right of the last visible column and below the last visible row
    /// drawing changes nothing: with offsets beyond the grid, nothing at all
    /// below the headers, or nothing at all.
    pub proof fn lemma_rendered_rest(
        &self,
        area: Area,
        state: TableState,
        bounds: Area,
        symbols: Map<(int, int), Seq<char>>,
        p: (int, int),
    )
        requires
            symbols.dom().contains(p),
            p.0 >= area.x + columns_span(
                self.widths@,
                state.offset_x as int,
                visible_columns(self.widths@, state.offset_x as int, area.width as int),
            ) || p.1 >= area.y + 1 + visible_rows(
                self.rows@.len() as int,
                state.offset_y as int,
                area.height - 1,
            ),
        ensures
            self.rendered(area, state, bounds, symbols)[p] == symbols[p],
    {
        if area.width == 0 || area.height == 0 {
        } else {
            let ox = state.offset_x as int;
            let oy = state.offset_y as int;
            let ax = area.x as int;
            let aw = area.width as int;
            let ay = area.y as int;
            let head = draw_line(symbols, bounds, self.widths@, self.headers@, ox, ax, aw, ay);
            lemma_draw_line_frame(symbols, bounds, self.widths@, self.headers@, ox, ax, aw, ay);
            if p.0 >= ax + columns_span(self.widths@, ox, visible_columns(self.widths@, ox, aw)) {
                lemma_draw_line_tail(symbols, bounds, self.widths@, self.headers@, ox, ax, aw, ay, p);
                lemma_draw_rows_right(
                    head,
                    bounds,
                    self.widths@,
                    self.rows@,
                    oy,
                    area.height - 1,
                    ox,
                    ax,
                    aw,
                    ay + 1,
                    p,
                );
            } else {
                lemma_draw_rows_below(
                    head,
                    bounds,
                    self.widths@,
                    self.rows@,
                    oy,
                    area.height - 1,
                    ox,
                    ax,
                    aw,
                    ay + 1,
                    p,
                );
            }
        }
    }

    /// Drawing is idempotent: drawn a second time with the same scroll
    /// position into the same area, the grid leaves the buffer's symbols as
    /// the first drawing left them.
    pub proof fn lemma_render_idempotent(
        &self,
        area: Area,
        state: TableState,
        bounds: Area,
        symbols: Map<(int, int), Seq<char>>,
    )
        ensures
            self.rendered(area, state, bounds, self.rendered(area, state, bounds, symbols))
                == self.rendered(area, state, bounds, symbols),
    {
        let once = self.rendered(area, state, bounds, symbols);
        let twice = self.rendered(area, state, bounds, once);
        self.lemma_render_stays_inside(area, state, bounds, symbols);
        self.lemma_render_stays_inside(area, state, bounds, once);
        if area.width == 0 || area.height == 0 {
        } else {
            let ox = state.offset_x as int;
            let oy = state.offset_y as int;
            let ax = area.x as int;
            let aw = area.width as int;
            let head = draw_line(symbols, bounds, self.widths@, self.headers@, ox, ax, aw, area.y as int);
            let head_again = draw_line(once, bounds, self.widths@, self.headers@, ox, ax, aw, area.y as int);
            lemma_draw_line_frame(symbols, bounds, self.widths@, self.headers@, ox, ax, aw, area.y as int);
            lemma_draw_line_frame(once, bounds, self.widths@, self.headers@, ox, ax, aw, area.y as int);
            lemma_draw_line_settles(
                symbols,
                once,
                bounds,
                self.widths@,
                self.headers@,
                ox,
                ax,
                aw,
                area.y as int,
            );
            lemma_draw_rows_settles(
                head,
                head_again,
                bounds,
                self.widths@,
                self.rows@,
                oy,
                area.height - 1,
                ox,
                ax,
                aw,
                area.y + 1,
            );
            assert forall|p: (int, int)| symbols.dom().contains(p) implies once[p] == twice[p] by {
                assert(settled(once, twice, head, head_again, p));
                assert(settled(head, head_again, symbols, once, p));
            }
        }
        assert(twice =~= once);
    }

    /// Draws the visible window of the grid into `area` of the buffer.
    ///
    /// The area is first painted with the grid's style. Headers are written
    /// in the header style, cells in the grid's style. Neither the grid nor
    /// the scroll position changes. The frame of the grid is not drawn here:
    /// whoever places the grid draws it and passes the area that it leaves free.
    pub fn render(&self, area: Area, buf: &mut Buffer, state: &TableState)
        ensures
            buffer_area(*final(buf)) == buffer_area(*old(buf)),
            buffer_symbols(*final(buf)) == self.rendered(
                area,
                *state,
                buffer_area(*old(buf)),
                buffer_symbols(*old(buf)),
            ),
            area.width == 0 || area.height == 0 ==> buffer_symbols(*final(buf)) == buffer_symbols(
                *old(buf),
            ),
            buffer_symbols(*final(buf)).dom() == buffer_symbols(*old(buf)).dom(),
            forall|p: (int, int)|
                buffer_symbols(*old(buf)).dom().contains(p) && !area.holds(p.0, p.1)
                    ==> #[trigger] buffer_symbols(*final(buf))[p] == buffer_symbols(*old(buf))[p],
    {
        proof {
            self.lemma_render_stays_inside(
                area,
                *state,
                buffer_area(*old(buf)),
                buffer_symbols(*old(buf)),
            );
        }
        if area.is_empty() {
            return ;
        }
        fill_style(buf, area, &self.style);
        write_line(
            buf,
            &self.widths,
            &self.headers,
            state.offset_x,
            &area,
            area.y as usize,
            &self.header_style,
        );
        let ghost bounds = buffer_area(*buf);
        let ghost head = buffer_symbols(*buf);
        let mut r: usize = state.offset_y;
        let mut left: usize = area.height as usize - 1;
        let mut y: usize = area.y as usize + 1;
        while r < self.rows.len() && left > 0
            invariant
                buffer_area(*buf) == bounds,
                y + left == area.y + area.height,
                draw_rows(
                    buffer_symbols(*buf),
                    bounds,
                    self.widths@,
                    self.rows@,
                    r as int,
                    left as int,
                    state.offset_x as int,
                    area.x as int,
                    area.width as int,
                    y as int,
                ) == draw_rows(
                    head,
                    bounds,
                    self.widths@,
                    self.rows@,
                    state.offset_y as int,
                    area.height - 1,
                    state.offset_x as int,
                    area.x as int,
                    area.width as int,
                    area.y + 1,
                ),
            decreases left,
        {
            write_line(buf, &self.widths, &self.rows[r], state.offset_x, &area, y, &self.style);
            r = r + 1;
            left = left - 1;
            y = y + 1;
        }
    }

    /// There is one width per header, and every column is at least as wide
    /// as its header and as each of its cells.
    pub proof fn lemma_widths_cover(&self)
        requires
            self.wf(),
        ensures
            self.widths@.len() == self.headers@.len(),
            forall|i: int|
                0 <= i < self.headers@.len() ==> #[trigger] self.widths@[i] >= display_width(
                    self.headers@[i]@,
                ),
            forall|i: int, r: int|
                0 <= i < self.headers@.len() && 0 <= r < self.rows@.len() ==> self.widths@[i]
                    >= #[trigger] cell_width(self.rows@[r]@, i),
    {
        assert forall|i: int, r: int|
            0 <= i < self.headers@.len() && 0 <= r < self.rows@.len() implies self.widths@[i]
            >= #[trigger] cell_width(self.rows@[r]@, i) by {
            lemma_rows_width_covers(self.rows@, i, self.rows@.len() as int, r);
        }
    }

    /// The same grid with a frame to draw around it.
    pub fn block(self, block: Block<'static>) -> (t: Self)
        ensures
            t.headers == self.headers,
            t.rows == self.rows,
            t.widths == self.widths,
            t.block == Some(block),
            t.style == self.style,
            t.header_style == self.header_style,
    {
        let mut t = self;
        t.block = Some(block);
        t
    }

    pub fn style(self, style: Style) -> (t: Self)
        ensures
            t.headers == self.headers,
            t.rows == self.rows,
            t.widths == self.widths,
            t.block == self.block,
            t.style == style,
            t.header_style == self.header_style,
    {
        let mut t = self;
        t.style = style;
        t
    }

    pub fn header_style(self, style: Style) -> (t: Self)
        ensures
            t.headers == self.headers,
            t.rows == self.rows,
            t.widths == self.widths,
            t.block == self.block,
            t.style == self.style,
            t.header_style == style,
    {
        let mut t = self;
        t.header_style = style;
        t
    }
}

} // verus!
