//! A small widget library that renders an animated throbber (activity
//! spinner) into a rectangular character-cell region of a terminal
//! user interface, on top of the ratatui rendering framework.
//!
//! The library owns the animation logic: a signed position that is
//! advanced between frames, a floor-modulo normalization rule that
//! reduces the position into the frame range of a symbol set, and the
//! selection of the glyph to draw. The host framework supplies the
//! output surface and the styling.

pub mod host;
pub mod symbols;
pub mod widgets;

pub use symbols::throbber::SymbolSet;
pub use symbols::throbber::WhichUse;
pub use symbols::throbber::ascii;
pub use symbols::throbber::box_drawing;
pub use symbols::throbber::arrow;
pub use symbols::throbber::double_arrow;
pub use symbols::throbber::vertical_block;
pub use symbols::throbber::horizontal_block;
pub use symbols::throbber::quadrant_block;
pub use symbols::throbber::quadrant_block_crack;
pub use symbols::throbber::white_square;
pub use symbols::throbber::white_circle;
pub use symbols::throbber::black_circle;
pub use symbols::throbber::clock;
pub use symbols::throbber::braille_one;
pub use symbols::throbber::braille_double;
pub use symbols::throbber::braille_six;
pub use symbols::throbber::braille_six_double;
pub use symbols::throbber::braille_eight;
pub use symbols::throbber::braille_eight_double;
pub use symbols::throbber::ogham_a;
pub use symbols::throbber::ogham_b;
pub use symbols::throbber::ogham_c;
pub use symbols::throbber::parenthesis;
pub use symbols::throbber::canadian;
pub use widgets::throbber::Throbber;
pub use widgets::throbber::ThrobberState;
pub use widgets::throbber::Rect;
