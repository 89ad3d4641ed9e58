use vstd::prelude::*;
use ratatui::buffer::Buffer;
use ratatui::layout::Rect;
use ratatui::style::Style;
use crate::area::Area;

verus! {

/// `ratatui::buffer::Buffer`: a rectangle of styled terminal cells.
#[verifier::external_type_specification]
#[verifier::external_body]
pub struct ExBuffer(ratatui::buffer::Buffer);

/// `ratatui::style::Style`: colours and modifiers applied to cells.
#[verifier::external_type_specification]
#[verifier::external_body]
pub struct ExStyle(ratatui::style::Style);

/// `ratatui::widgets::Block`: a frame of borders and titles around a widget.
#[verifier::external_type_specification]
#[verifier::external_body]
pub struct ExBlock<'a>(ratatui::widgets::Block<'a>);

/// The symbol shown in each cell of a buffer, by (column, line).
pub uninterp spec fn buffer_symbols(buf: Buffer) -> Map<(int, int), Seq<char>>;

/// The rectangle of the screen that a buffer stands for.
pub uninterp spec fn buffer_area(buf: Buffer) -> Area;

/// The symbols that writing `text` into `room` free cells puts into
/// successive cells, left to right: one entry per cell written.
pub uninterp spec fn text_cells(text: Seq<char>, room: nat) -> Seq<Seq<char>>;

/// A symbol map with `cells` laid over it from column `x` rightwards on line
/// `y`, over no more than `room` columns.
pub open spec fn paint(
    symbols: Map<(int, int), Seq<char>>,
    x: int,
    y: int,
    cells: Seq<Seq<char>>,
    room: int,
) -> Map<(int, int), Seq<char>> {
    Map::new(
        |p: (int, int)| symbols.dom().contains(p),
        |p: (int, int)|
            if p.1 == y && x <= p.0 < x + cells.len() && p.0 < x + room {
                cells[p.0 - x]
            } else {
                symbols[p]
            },
    )
}

/// Reads the public field `area` of a `Buffer`.
///
/// Trusted: the result is the buffer's rectangle, and the buffer holds a cell
/// exactly at the positions inside it (as `Rect::contains` and
/// `Buffer::cell` decide for a buffer made by ratatui's constructors).
#[verifier::external_body]
pub(crate) fn area_of(buf: &Buffer) -> (a: Area)
    ensures
        a == buffer_area(*buf),
        forall|p: (int, int)| #[trigger]
            buffer_symbols(*buf).dom().contains(p) <==> a.holds(p.0, p.1),
{
    let r = buf.area;
    Area { x: r.x, y: r.y, width: r.width, height: r.height }
}

/// Calls `Buffer::set_style` on a rectangle.
///
/// Trusted: the call patches the style of the cells in the rectangle and
/// leaves every symbol, and the buffer's rectangle, as they were. It accepts
/// any rectangle: the part outside the buffer is ignored.
#[verifier::external_body]
pub(crate) fn fill_style(buf: &mut Buffer, area: Area, style: &Style)
    ensures
        buffer_area(*final(buf)) == buffer_area(*old(buf)),
        buffer_symbols(*final(buf)) == buffer_symbols(*old(buf)),
{
    buf.set_style(Rect { x: area.x, y: area.y, width: area.width, height: area.height }, *style);
}

/// Calls `Buffer::set_stringn` with `room` as the width limit.
///
/// Trusted: starting at (`x`, `y`) the call writes the text's graphemes that
/// fit into `room` cells, skipping control characters and zero-width
/// graphemes, one cell after the other; it writes at most `room` cells and
/// touches no other. What it writes depends on the text and `room` alone.
/// The start must lie in the buffer with `room` cells free to its right: the
/// call panics on a position outside the buffer.
#[verifier::external_body]
pub(crate) fn put_text(buf: &mut Buffer, x: u16, y: u16, text: &str, room: u16, style: &Style)
    requires
        buffer_area(*old(buf)).holds(x as int, y as int),
        x + room <= buffer_area(*old(buf)).right(),
    ensures
        buffer_area(*final(buf)) == buffer_area(*old(buf)),
        buffer_symbols(*final(buf)) == paint(
            buffer_symbols(*old(buf)),
            x as int,
            y as int,
            text_cells(text@, room as nat),
            room as int,
        ),
{
    buf.set_stringn(x, y, text, room as usize, *style);
}

/// `Style` is `Copy`: its derived `clone` returns an equal value.
pub assume_specification[ <ratatui::style::Style as Clone>::clone ](s: &Style) -> (r: Style)
    ensures
        r == *s,
;

/// `Style::default()`: the style that changes nothing.
#[verifier::external_body]
pub(crate) fn plain_style() -> (s: Style) {
    Style::default()
}

} // verus!
