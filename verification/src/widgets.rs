//! The throbber widget and its animation state.

pub mod throbber;
