//! Scrollable result grids for a text-mode query client: measuring a batch of
//! cell texts, drawing the visible window of it into a terminal buffer, and
//! paging through the batches of a result.

pub mod area;
pub mod width;
pub mod screen;
pub mod value;
pub mod window;
pub mod custom_table;
pub mod table;
pub mod paginator;
pub mod popup;
pub mod app;
pub mod text;
pub mod handler;
