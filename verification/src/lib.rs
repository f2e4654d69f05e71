//! Shortcut types for idiomatic nested types: an optional boxed value and
//! two kinds of shared cell.

pub mod arc_mutex;
pub mod option_box;
pub mod rc_cell;

pub use arc_mutex::ArcMutex;
pub use option_box::OptionBox;
pub use rc_cell::RcCell;
