use vstd::prelude::*;
use crate::custom_table::Table;
use crate::table::{create_table, shows, Batch};

verus! {

/// A batch of a result could not be delivered.
#[derive(Debug, Clone)]
pub struct BatchError {
    pub message: String,
}

/// The grid on display and the batches of the result that are still to come.
///
/// Batches are consumed from the front, one at a time and never again; only
/// the batch on display exists as a grid.
pub struct Paginator {
    pub current: Table,
    /// What is still to come, next first; a failed delivery holds its message.
    pub pending: Vec<Result<Batch, String>>,
}

impl Paginator {
    /// A paginator that shows `current` and has `pending` still to come.
    pub fn new(current: Table, pending: Vec<Result<Batch, String>>) -> (p: Self)
        ensures
            p.current == current,
            p.pending == pending,
    {
        Paginator { current, pending }
    }

    /// Whether anything is still to come.
    pub fn has_next(&self) -> (more: bool)
        ensures
            more == (self.pending@.len() > 0),
    {
        self.pending.len() > 0
    }

    /// Moves on to the next batch, if there is one.
    ///
    /// With nothing to come the answer is `Ok(false)` and nothing changes. A
    /// batch that arrived becomes the grid on display, with the frame and the
    /// styles of the grid before it, and the answer is `Ok(true)`. A failed delivery is
    /// consumed too and reported, and the grid on display stays.
    pub fn advance(&mut self) -> (moved: Result<bool, BatchError>)
        ensures
            old(self).pending@.len() == 0 ==> final(self).pending@ == old(self).pending@,
            old(self).pending@.len() > 0 ==> final(self).pending@ == old(self).pending@.skip(1),
            old(self).current.wf() ==> final(self).current.wf(),
            final(self).current.block == old(self).current.block,
            final(self).current.style == old(self).current.style,
            final(self).current.header_style == old(self).current.header_style,
            old(self).pending@.len() == 0 ==> moved == Ok::<bool, BatchError>(false)
                && final(self).current == old(self).current,
            old(self).pending@.len() > 0 ==> match old(self).pending@[0] {
                Ok(batch) => moved == Ok::<bool, BatchError>(true) && shows(
                    final(self).current,
                    batch,
                ),
                Err(message) => moved == Err::<bool, BatchError>(BatchError { message })
                    && final(self).current == old(self).current,
            },
    {
        if self.pending.len() == 0 {
            return Ok(false);
        }
        let next = self.pending.remove(0);
        assert(self.pending@ =~= old(self).pending@.skip(1));
        match next {
            Ok(batch) => {
                let style = self.current.style.clone();
                let header_style = self.current.header_style.clone();
                let block = self.current.block.take();
                let mut table = create_table(batch).style(style).header_style(header_style);
                table.block = block;
                self.current = table;
                Ok(true)
            },
            Err(message) => Err(BatchError { message }),
        }
    }
}

} // verus!
