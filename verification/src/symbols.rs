//! The symbol catalog: named sets of animation frames.

pub mod throbber;
