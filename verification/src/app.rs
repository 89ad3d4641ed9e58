use vstd::prelude::*;
use ratatui::buffer::Buffer;
use crate::area::Area;
use crate::custom_table::{Table, TableState};
use crate::paginator::{BatchError, Paginator};
use crate::popup::FileNamePopup;
use crate::screen::{buffer_area, buffer_symbols};
use crate::table::{shows, Batch};

verus! {

/// An offset moved by a signed amount, kept within the range of offsets:
/// never below zero, never above the largest `usize`.
pub open spec fn shifted(offset: int, delta: int) -> int {
    let target = offset + delta;
    if target < 0 {
        0
    } else if target > usize::MAX {
        usize::MAX as int
    } else {
        target
    }
}

/// An offset after a sequence of moves, each kept within the range.
pub open spec fn shifted_all(offset: int, deltas: Seq<int>) -> int
    decreases deltas.len(),
{
    if deltas.len() == 0 {
        offset
    } else {
        shifted_all(shifted(offset, deltas[0]), deltas.skip(1))
    }
}

/// Scrolling backwards from the origin, however often, stays at the origin.
pub proof fn lemma_backward_from_origin(deltas: Seq<int>)
    requires
        forall|i: int| 0 <= i < deltas.len() ==> deltas[i] <= 0,
    ensures
        shifted_all(0, deltas) == 0,
    decreases deltas.len(),
{
    if deltas.len() > 0 {
        lemma_backward_from_origin(deltas.skip(1));
    }
}

/// The index of the last row of a grid with `rows` rows; 0 for none.
pub open spec fn last_row(rows: int) -> int {
    if rows <= 0 {
        0
    } else {
        rows - 1
    }
}

/// Moves an offset by a signed amount, saturating at both ends.
pub fn shift(offset: usize, delta: isize) -> (moved: usize)
    ensures
        moved == shifted(offset as int, delta as int),
{
    if delta >= 0 {
        let forward: usize = delta as usize;
        if forward > usize::MAX - offset {
            usize::MAX
        } else {
            offset + forward
        }
    } else {
        let back: usize = ((-(delta + 1)) as usize) + 1;
        if back > offset {
            0
        } else {
            offset - back
        }
    }
}

/// The state of the client that does not live in the terminal or the
/// database: the query text, the result on display with its scroll
/// position, and which dialogs are open.
pub struct App {
    pub running: bool,
    pub input: String,
    pub pages: Paginator,
    pub table_state: TableState,
    pub error: Option<String>,
    pub show_error_popup: bool,
    pub show_save_popup: bool,
    pub save_popup: FileNamePopup,
}

impl App {
    /// The state at start: running, no query, no result, no dialog.
    pub fn new() -> (app: Self)
        ensures
            app.running,
            app.input@ == Seq::<char>::empty(),
            app.pages.current.headers@.len() == 0,
            app.pages.current.rows@.len() == 0,
            app.pages.current.wf(),
            app.pages.pending@.len() == 0,
            app.table_state.offset_x == 0,
            app.table_state.offset_y == 0,
            app.error.is_none(),
            !app.show_error_popup,
            !app.show_save_popup,
            app.save_popup.input@ == Seq::<char>::empty(),
    {
        Self {
            running: true,
            input: String::new(),
            pages: Paginator::new(Table::default(), Vec::new()),
            table_state: TableState { offset_x: 0, offset_y: 0 },
            error: None,
            show_error_popup: false,
            show_save_popup: false,
            save_popup: FileNamePopup::new(),
        }
    }

    /// Takes the batches of a fresh result and shows the first of them,
    /// scrolled to the origin.
    ///
    /// A result without batches shows the empty grid. If the first delivery
    /// failed, the failure is reported and the empty grid is shown. The
    /// frame and the styles of the grid on display carry over.
    pub fn create_table(&mut self, batches: Vec<Result<Batch, String>>) -> (done: Result<
        (),
        BatchError,
    >)
        ensures
            final(self).table_state.offset_x == 0,
            final(self).table_state.offset_y == 0,
            final(self).running == old(self).running,
            final(self).input == old(self).input,
            final(self).error == old(self).error,
            final(self).show_error_popup == old(self).show_error_popup,
            final(self).show_save_popup == old(self).show_save_popup,
            final(self).save_popup == old(self).save_popup,
            final(self).pages.current.block == old(self).pages.current.block,
            final(self).pages.current.style == old(self).pages.current.style,
            final(self).pages.current.header_style == old(self).pages.current.header_style,
            final(self).pages.current.wf(),
            batches@.len() == 0 ==> done.is_ok() && final(self).pages.pending@.len() == 0
                && final(self).pages.current.headers@.len() == 0
                && final(self).pages.current.rows@.len() == 0,
            batches@.len() > 0 ==> final(self).pages.pending@ == batches@.skip(1)
                && match batches@[0] {
                Ok(batch) => done.is_ok() && shows(final(self).pages.current, batch),
                Err(message) => done == Err::<(), BatchError>(BatchError { message })
                    && final(self).pages.current.headers@.len() == 0
                    && final(self).pages.current.rows@.len() == 0,
            },
    {
        let style = self.pages.current.style.clone();
        let header_style = self.pages.current.header_style.clone();
        let block = self.pages.current.block.take();
        let mut blank = Table::default().style(style).header_style(header_style);
        blank.block = block;
        self.pages = Paginator::new(blank, batches);
        self.table_state = TableState { offset_x: 0, offset_y: 0 };
        match self.pages.advance() {
            Ok(_) => Ok(()),
            Err(e) => Err(e),
        }
    }

    /// Records that a query failed: no result is left, neither on display
    /// nor to come; the message is kept with `Error: ` before it, and the
    /// error dialog changes over.
    pub fn query_failed(&mut self, message: &str)
        ensures
            final(self).pages.pending@.len() == 0,
            final(self).pages.current.headers@.len() == 0,
            final(self).pages.current.rows@.len() == 0,
            final(self).pages.current.wf(),
            final(self).pages.current.block == old(self).pages.current.block,
            final(self).pages.current.style == old(self).pages.current.style,
            final(self).pages.current.header_style == old(self).pages.current.header_style,
            final(self).table_state.offset_x == 0,
            final(self).table_state.offset_y == 0,
            final(self).error.is_some(),
            final(self).error.unwrap()@ == error_label() + message@,
            final(self).show_error_popup == !old(self).show_error_popup,
            final(self).running == old(self).running,
            final(self).input == old(self).input,
            final(self).show_save_popup == old(self).show_save_popup,
            final(self).save_popup == old(self).save_popup,
    {
        proof {
            reveal_strlit("Error: ");
        }
        let mut text = String::new();
        text.append("Error: ");
        assert(text@ =~= error_label());
        text.append(message);
        let _ = self.create_table(Vec::new());
        self.error = Some(text);
        self.toggle_error_popup();
    }

    /// Records that saving failed: the message is kept with
    /// `Error saving file: ` before it, and the error dialog changes over.
    pub fn save_failed(&mut self, message: &str)
        ensures
            final(self).error.is_some(),
            final(self).error.unwrap()@ == save_error_label() + message@,
            final(self).show_error_popup == !old(self).show_error_popup,
            final(self).pages == old(self).pages,
            final(self).running == old(self).running,
            final(self).input == old(self).input,
            final(self).table_state == old(self).table_state,
            final(self).show_save_popup == old(self).show_save_popup,
            final(self).save_popup == old(self).save_popup,
    {
        proof {
            reveal_strlit("Error saving file: ");
        }
        let mut text = String::new();
        text.append("Error saving file: ");
        assert(text@ =~= save_error_label());
        text.append(message);
        self.error = Some(text);
        self.toggle_error_popup();
    }

    /// Handles the tick event of the terminal: nothing to do.
    pub fn tick(&self) {
    }

    /// Stops the client.
    pub fn quit(&mut self)
        ensures
            *final(self) == (App { running: false, ..*old(self) }),
    {
        self.running = false;
    }

    pub fn toggle_error_popup(&mut self)
        ensures
            *final(self) == (App { show_error_popup: !old(self).show_error_popup, ..*old(self) }),
    {
        self.show_error_popup = !self.show_error_popup;
    }

    pub fn toggle_save_popup(&mut self)
        ensures
            *final(self) == (App { show_save_popup: !old(self).show_save_popup, ..*old(self) }),
    {
        self.show_save_popup = !self.show_save_popup;
    }

    /// Scrolls the rows by `amount`, moving on to the next batch at the end
    /// of this one.
    ///
    /// The row offset moves by `amount` and never below zero. If that
    /// leaves it on a row of the grid, it stays there. If it would reach or
    /// pass the end of the grid, the next batch is taken: when one arrives it
    /// goes on display from its first row; when its delivery failed, the
    /// failure is reported and grid and offset stay; when nothing is left to
    /// come, the offset stops at the last row. The column offset stays.
    /// After a scroll that did not fail the offset is on a row of the grid
    /// on display, or 0 if the grid has none.
    pub fn scroll_vertical(&mut self, amount: isize) -> (done: Result<(), BatchError>)
        ensures
            final(self).table_state.offset_x == old(self).table_state.offset_x,
            final(self).running == old(self).running,
            final(self).input == old(self).input,
            final(self).error == old(self).error,
            final(self).show_error_popup == old(self).show_error_popup,
            final(self).show_save_popup == old(self).show_save_popup,
            final(self).save_popup == old(self).save_popup,
            final(self).pages.current.block == old(self).pages.current.block,
            final(self).pages.current.style == old(self).pages.current.style,
            final(self).pages.current.header_style == old(self).pages.current.header_style,
            ({
                let before = *old(self);
                let after = *final(self);
                let target = shifted(before.table_state.offset_y as int, amount as int);
                let rows = before.pages.current.rows@.len();
                if target < rows {
                    &&& done.is_ok()
                    &&& after.pages == before.pages
                    &&& after.table_state.offset_y == target
                } else if before.pages.pending@.len() == 0 {
                    &&& done.is_ok()
                    &&& after.pages == before.pages
                    &&& after.table_state.offset_y == last_row(rows as int)
                } else {
                    &&& after.pages.pending@ == before.pages.pending@.skip(1)
                    &&& match before.pages.pending@[0] {
                        Ok(batch) => {
                            &&& done.is_ok()
                            &&& shows(after.pages.current, batch)
                            &&& after.table_state.offset_y == 0
                        },
                        Err(message) => {
                            &&& done == Err::<(), BatchError>(BatchError { message })
                            &&& after.pages.current == before.pages.current
                            &&& after.table_state.offset_y == before.table_state.offset_y
                        },
                    }
                }
            }),
            amount <= 0 && old(self).table_state.offset_y == 0 ==> final(self).table_state.offset_y
                == 0,
            done.is_ok() ==> final(self).table_state.offset_y <= last_row(
                final(self).pages.current.rows@.len() as int,
            ),
            old(self).pages.current.wf() ==> final(self).pages.current.wf(),
    {
        let target: usize = shift(self.table_state.offset_y, amount);
        let rows: usize = self.pages.current.rows.len();
        if target < rows {
            self.table_state.offset_y = target;
            Ok(())
        } else if self.pages.has_next() {
            match self.pages.advance() {
                Ok(_) => {
                    self.table_state.offset_y = 0;
                    Ok(())
                },
                Err(e) => Err(e),
            }
        } else {
            self.table_state.offset_y = if rows == 0 {
                0
            } else {
                rows - 1
            };
            Ok(())
        }
    }

    /// Scrolls the columns by `amount`, never below zero. Nothing else changes.
    pub fn scroll_horizontal(&mut self, amount: isize)
        ensures
            final(self).table_state.offset_x == shifted(
                old(self).table_state.offset_x as int,
                amount as int,
            ),
            final(self).table_state.offset_y == old(self).table_state.offset_y,
            final(self).pages == old(self).pages,
            final(self).running == old(self).running,
            final(self).input == old(self).input,
            final(self).error == old(self).error,
            final(self).show_error_popup == old(self).show_error_popup,
            final(self).show_save_popup == old(self).show_save_popup,
            final(self).save_popup == old(self).save_popup,
    {
        self.table_state.offset_x = shift(self.table_state.offset_x, amount);
    }

    /// Draws the grid on display, at its scroll position, into `area` of the buffer.
    pub fn render(&self, area: Area, buf: &mut Buffer)
        ensures
            buffer_area(*final(buf)) == buffer_area(*old(buf)),
            buffer_symbols(*final(buf)) == self.pages.current.rendered(
                area,
                self.table_state,
                buffer_area(*old(buf)),
                buffer_symbols(*old(buf)),
            ),
    {
        self.pages.current.render(area, buf, &self.table_state);
    }
}

/// The label that stands before the message of a failed save.
pub open spec fn save_error_label() -> Seq<char> {
    seq!['E', 'r', 'r', 'o', 'r', ' ', 's', 'a', 'v', 'i', 'n', 'g', ' ', 'f', 'i', 'l', 'e', ':', ' ']
}

/// The label that stands before the message of a failed query.
pub open spec fn error_label() -> Seq<char> {
    seq!['E', 'r', 'r', 'o', 'r', ':', ' ']
}

} // verus!
