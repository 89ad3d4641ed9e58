use quackmire::area::Area;
use quackmire::custom_table::{Table, TableState};
use ratatui::buffer::Buffer;
use ratatui::layout::Rect;
use ratatui::style::{Color, Style};

fn texts(items: &[&str]) -> Vec<String> {
    items.iter().map(|s| s.to_string()).collect()
}

fn grid(headers: &[&str], rows: &[&[&str]]) -> Table {
    Table::new(texts(headers), rows.iter().map(|r| texts(r)).collect())
}

fn line(buf: &Buffer, y: u16) -> String {
    let area = buf.area;
    let mut out = String::new();
    for x in area.x..area.x + area.width {
        out.push_str(buf[(x, y)].symbol());
    }
    out
}

fn filled(width: u16, height: u16, symbol: &str) -> Buffer {
    let mut buf = Buffer::empty(Rect::new(0, 0, width, height));
    for y in 0..height {
        for x in 0..width {
            buf[(x, y)].set_symbol(symbol);
        }
    }
    buf
}

fn at(offset_x: usize, offset_y: usize) -> TableState {
    TableState { offset_x, offset_y }
}

#[test]
fn widths_are_one_per_header_and_cover_every_cell() {
    let t = grid(&["id", "name"], &[&["1", "ann"], &["2", "bartholomew"], &["12345"]]);
    assert_eq!(t.widths, vec![5, 11]);
    assert_eq!(t.widths.len(), t.headers.len());
}

#[test]
fn header_wider_than_cells_sets_the_width() {
    let t = grid(&["identifier"], &[&["1"], &["22"]]);
    assert_eq!(t.widths, vec![10]);
}

#[test]
fn wide_and_combining_characters_are_measured_by_display_width() {
    let t = grid(&["a", "b"], &[&["日本語", "e\u{301}"]]);
    assert_eq!(t.widths, vec![6, 1]);
}

#[test]
fn no_headers_means_no_widths() {
    let t = grid(&[], &[&["1", "2"]]);
    assert!(t.widths.is_empty());
    assert!(!t.is_empty());
    let mut buf = filled(8, 3, ".");
    t.render(Area::new(0, 0, 8, 3), &mut buf, &at(0, 0));
    assert_eq!(line(&buf, 0), "........");
    assert_eq!(line(&buf, 1), "........");
}

#[test]
fn default_grid_is_empty() {
    let t = Table::default();
    assert!(t.is_empty());
    assert!(t.headers.is_empty());
    assert!(t.rows.is_empty());
    assert!(t.widths.is_empty());
    assert_eq!(t.style, Style::default());
    assert_eq!(t.header_style, Style::default());
}

#[test]
fn table_state_starts_at_origin() {
    let s = TableState::default();
    assert_eq!((s.offset_x, s.offset_y), (0, 0));
}

#[test]
fn two_columns_and_two_rows_are_aligned() {
    let t = grid(&["id", "name"], &[&["1", "ann"], &["2", "bob"]]);
    let mut buf = Buffer::empty(Rect::new(0, 0, 12, 3));
    t.render(Area::new(0, 0, 12, 3), &mut buf, &at(0, 0));
    assert_eq!(line(&buf, 0), "id name     ");
    assert_eq!(line(&buf, 1), "1  ann      ");
    assert_eq!(line(&buf, 2), "2  bob      ");
}

#[test]
fn short_row_leaves_blank_cells() {
    let t = grid(&["a", "b", "c"], &[&["1", "2", "3"], &["4"], &[]]);
    let mut buf = Buffer::empty(Rect::new(0, 0, 8, 4));
    t.render(Area::new(0, 0, 8, 4), &mut buf, &at(0, 0));
    assert_eq!(line(&buf, 0), "a b c   ");
    assert_eq!(line(&buf, 1), "1 2 3   ");
    assert_eq!(line(&buf, 2), "4       ");
    assert_eq!(line(&buf, 3), "        ");
}

#[test]
fn zero_width_or_height_writes_nothing() {
    let t = grid(&["id"], &[&["1"]]).style(Style::default().fg(Color::Red));
    let before = filled(6, 3, "x");
    let mut buf = before.clone();
    t.render(Area::new(1, 1, 0, 2), &mut buf, &at(0, 0));
    assert_eq!(buf, before);
    t.render(Area::new(1, 1, 4, 0), &mut buf, &at(0, 0));
    assert_eq!(buf, before);
}

#[test]
fn nothing_is_written_outside_the_area() {
    let t = grid(&["id", "name"], &[&["1", "ann"], &["2", "bob"], &["3", "cy"]]);
    let mut buf = filled(12, 6, "x");
    t.render(Area::new(2, 1, 8, 3), &mut buf, &at(0, 0));
    assert_eq!(line(&buf, 0), "xxxxxxxxxxxx");
    assert_eq!(line(&buf, 1), "xxidxnamexxx");
    assert_eq!(line(&buf, 2), "xx1xxannxxxx");
    assert_eq!(line(&buf, 3), "xx2xxbobxxxx");
    assert_eq!(line(&buf, 4), "xxxxxxxxxxxx");
    assert_eq!(line(&buf, 5), "xxxxxxxxxxxx");
}

#[test]
fn offsets_beyond_the_grid_draw_nothing() {
    let t = grid(&["id", "name"], &[&["1", "ann"]]);
    let before = filled(10, 4, "x");
    let mut buf = before.clone();
    t.render(Area::new(0, 0, 10, 4), &mut buf, &at(usize::MAX, usize::MAX));
    assert_eq!(buf, before);
    t.render(Area::new(0, 0, 10, 4), &mut buf, &at(2, 1));
    assert_eq!(buf, before);
}

#[test]
fn row_offset_beyond_the_grid_still_draws_headers() {
    let t = grid(&["id", "name"], &[&["1", "ann"]]);
    let mut buf = filled(10, 3, "x");
    t.render(Area::new(0, 0, 10, 3), &mut buf, &at(0, 7));
    assert_eq!(line(&buf, 0), "idxnamexxx");
    assert_eq!(line(&buf, 1), "xxxxxxxxxx");
}

#[test]
fn a_column_that_does_not_fit_whole_is_not_drawn() {
    let t = grid(&["id", "name", "city"], &[&["1", "ann", "rome"]]);
    let mut buf = filled(10, 2, ".");
    // id takes 3 cells, name 5; city would need 5 more.
    t.render(Area::new(0, 0, 10, 2), &mut buf, &at(0, 0));
    assert_eq!(line(&buf, 0), "id.name...");
    assert_eq!(line(&buf, 1), "1..ann....");
    // A column needs its width and the separator cell.
    let mut narrow = filled(7, 2, ".");
    t.render(Area::new(0, 0, 7, 2), &mut narrow, &at(0, 0));
    assert_eq!(line(&narrow, 0), "id.....");
    let mut exact = filled(8, 2, ".");
    t.render(Area::new(0, 0, 8, 2), &mut exact, &at(0, 0));
    assert_eq!(line(&exact, 0), "id.name.");
}

#[test]
fn column_offset_is_the_first_visible_column() {
    let t = grid(&["id", "name", "city"], &[&["1", "ann", "rome"]]);
    let mut buf = filled(12, 2, ".");
    t.render(Area::new(0, 0, 12, 2), &mut buf, &at(1, 0));
    assert_eq!(line(&buf, 0), "name.city...");
    assert_eq!(line(&buf, 1), "ann..rome...");
}

#[test]
fn row_offset_is_the_first_visible_row() {
    let t = grid(&["n"], &[&["0"], &["1"], &["2"], &["3"], &["4"]]);
    let mut buf = filled(3, 3, ".");
    t.render(Area::new(0, 0, 3, 3), &mut buf, &at(0, 2));
    assert_eq!(line(&buf, 0), "n..");
    assert_eq!(line(&buf, 1), "2..");
    assert_eq!(line(&buf, 2), "3..");
}

#[test]
fn last_nine_rows_of_a_hundred() {
    let rows: Vec<Vec<String>> = (0..100).map(|i| vec![i.to_string()]).collect();
    let t = Table::new(vec!["n".to_string()], rows);
    let mut buf = Buffer::empty(Rect::new(0, 0, 4, 10));
    t.render(Area::new(0, 0, 4, 10), &mut buf, &at(0, 91));
    assert_eq!(line(&buf, 0), "n   ");
    assert_eq!(line(&buf, 1), "91  ");
    assert_eq!(line(&buf, 9), "99  ");
}

#[test]
fn area_reaching_beyond_the_buffer_is_cut_at_its_edge() {
    let t = grid(&["id", "name"], &[&["1", "ann"], &["2", "bob"]]);
    let mut buf = filled(5, 2, ".");
    t.render(Area::new(0, 0, 40, 9), &mut buf, &at(0, 0));
    assert_eq!(line(&buf, 0), "id.na");
    assert_eq!(line(&buf, 1), "1..an");
    let mut off = Buffer::empty(Rect::new(10, 10, 4, 2));
    let before = off.clone();
    t.render(Area::new(0, 0, 8, 3), &mut off, &at(0, 0));
    assert_eq!(off, before);
}

#[test]
fn area_at_the_far_corner_of_the_coordinate_range() {
    let t = grid(&["id"], &[&["1"]]);
    let mut buf = Buffer::empty(Rect::new(65530, 65530, 5, 5));
    t.render(Area::new(65530, 65533, 5, 2), &mut buf, &at(0, 0));
    assert_eq!(buf[(65530u16, 65533u16)].symbol(), "i");
    assert_eq!(buf[(65531u16, 65533u16)].symbol(), "d");
    assert_eq!(buf[(65530u16, 65534u16)].symbol(), "1");
}

#[test]
fn rendering_twice_gives_the_same_buffer() {
    let t = grid(&["id", "name"], &[&["1", "ann"], &["2", "日本"]])
        .style(Style::default().fg(Color::Green));
    let area = Area::new(1, 1, 9, 3);
    let start = filled(12, 5, "x");
    let mut first = start.clone();
    t.render(area, &mut first, &at(0, 0));
    let mut second = start.clone();
    t.render(area, &mut second, &at(0, 0));
    assert_eq!(first, second);
    let once = first.clone();
    t.render(area, &mut first, &at(0, 0));
    assert_eq!(first, once);
}

#[test]
fn wide_characters_take_two_cells() {
    let t = grid(&["k", "v"], &[&["日本", "x"]]);
    assert_eq!(t.widths, vec![4, 1]);
    let mut buf = filled(8, 2, ".");
    t.render(Area::new(0, 0, 8, 2), &mut buf, &at(0, 0));
    assert_eq!(buf[(0u16, 1u16)].symbol(), "日");
    assert_eq!(buf[(1u16, 1u16)].symbol(), " ");
    assert_eq!(buf[(2u16, 1u16)].symbol(), "本");
    assert_eq!(buf[(3u16, 1u16)].symbol(), " ");
    assert_eq!(buf[(4u16, 1u16)].symbol(), ".");
    assert_eq!(buf[(5u16, 1u16)].symbol(), "x");
}

#[test]
fn area_is_painted_and_headers_get_their_style() {
    let body = Style::default().fg(Color::Blue);
    let head = Style::default().fg(Color::Magenta);
    let t = grid(&["id"], &[&["1"]]).style(body).header_style(head);
    assert_eq!(t.style, body);
    assert_eq!(t.header_style, head);
    let mut buf = Buffer::empty(Rect::new(0, 0, 6, 4));
    t.render(Area::new(1, 1, 4, 2), &mut buf, &at(0, 0));
    assert_eq!(buf[(1u16, 1u16)].fg, Color::Magenta);
    assert_eq!(buf[(3u16, 1u16)].fg, Color::Blue);
    assert_eq!(buf[(1u16, 2u16)].fg, Color::Blue);
    assert_eq!(buf[(4u16, 2u16)].fg, Color::Blue);
    assert_eq!(buf[(0u16, 1u16)].fg, Color::Reset);
    assert_eq!(buf[(5u16, 2u16)].fg, Color::Reset);
    assert_eq!(buf[(1u16, 3u16)].fg, Color::Reset);
}

#[test]
fn cloned_grid_keeps_its_styles() {
    let t = grid(&["id"], &[&["1"]]).style(Style::default().fg(Color::Yellow));
    let c = t.clone();
    assert_eq!(c.style, t.style);
    assert_eq!(c.headers, t.headers);
    assert_eq!(c.widths, t.widths);
}

#[test]
fn area_edges_saturate() {
    let a = Area::new(65530, 3, 10, 4);
    assert_eq!(a.right_edge(), 65535);
    assert_eq!(a.bottom_edge(), 7);
    assert!(a.contains(65534, 6));
    assert!(!a.contains(65535, 6));
    assert!(!a.contains(65534, 7));
    assert!(!a.contains(65529, 3));
    assert!(!Area::new(0, 0, 3, 3).is_empty());
    assert!(Area::new(0, 0, 0, 3).is_empty());
    assert!(Area::new(0, 0, 3, 0).is_empty());
}

#[test]
fn frame_is_carried_with_the_grid() {
    let frame = ratatui::widgets::Block::bordered().title("Results");
    let t = grid(&["id"], &[&["1"]]);
    assert!(t.block.is_none());
    let t = t.block(frame.clone()).style(Style::default().fg(Color::Red));
    assert_eq!(t.block, Some(frame));
    assert_eq!(t.headers, vec!["id"]);
    assert_eq!(t.widths, vec![2]);
}
