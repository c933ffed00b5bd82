//! A navigable grid model for a terminal database browser.
//!
//! The heart of the library is [`table::TableStruct`]: a rectangular result
//! set (headers and string-rendered rows) together with a two-dimensional
//! selection and a sliding window of visible columns. Navigation saturates at
//! the grid edges and the visible window is re-derived from the selection by
//! quantized jumps of a fixed page width.

pub mod dispatch;
pub mod input;
pub mod list;
pub mod model;
pub mod tab;
pub mod table;
