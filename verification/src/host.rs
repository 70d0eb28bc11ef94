//! The trusted boundary to the host rendering framework (ratatui) and
//! to the process-wide random number source (rand).
//!
//! Everything the library knows about the host's types is stated here:
//! the styled-text types are opaque except for the characters they
//! hold, and the output surface is opaque except for the rectangle it
//! covers and the symbols its cells hold.

use vstd::prelude::*;
use crate::widgets::throbber::Rect;

verus! {

#[verifier::external_type_specification]
#[verifier::external_body]
pub struct ExStyle(ratatui::style::Style);

#[verifier::external_type_specification]
#[verifier::external_body]
pub struct ExSpan<'a>(ratatui::text::Span<'a>);

#[verifier::external_type_specification]
#[verifier::external_body]
pub struct ExLine<'a>(ratatui::text::Line<'a>);

#[verifier::external_type_specification]
#[verifier::external_body]
pub struct ExBuffer(ratatui::buffer::Buffer);

/// The characters a span holds: its `content` field, as a sequence.
pub uninterp spec fn span_content(s: ratatui::text::Span) -> Seq<char>;

/// The contents a line holds: the characters of each of its spans, in
/// order.
pub uninterp spec fn line_contents(l: ratatui::text::Line) -> Seq<Seq<char>>;

/// The rectangle a buffer covers: its `area` field, as
/// (x, y, width, height).
pub uninterp spec fn buf_area_of(b: ratatui::buffer::Buffer) -> (u16, u16, u16, u16);

/// The first column right of the buffer's rectangle, saturating at
/// the largest column number as the host does.
pub open spec fn buf_right(b: ratatui::buffer::Buffer) -> int {
    let v = buf_area_of(b).0 + buf_area_of(b).2;
    if v > u16::MAX as int {
        u16::MAX as int
    } else {
        v
    }
}

/// The first row below the buffer's rectangle, saturating at the
/// largest row number as the host does.
pub open spec fn buf_bottom(b: ratatui::buffer::Buffer) -> int {
    let v = buf_area_of(b).1 + buf_area_of(b).3;
    if v > u16::MAX as int {
        u16::MAX as int
    } else {
        v
    }
}

/// A starting cell at which the host will write into the buffer
/// without aborting: either at or beyond the right edge (the host then
/// writes nothing), or inside the buffer's rectangle.
pub open spec fn writable_start(b: ratatui::buffer::Buffer, x: u16, y: u16) -> bool {
    ||| x as int >= buf_right(b)
    ||| {
        &&& buf_area_of(b).0 <= x
        &&& buf_area_of(b).1 <= y
        &&& (y as int) < buf_bottom(b)
    }
}

/// The symbol a buffer's cell at column `cx`, row `cy` holds, as a
/// character sequence.
pub uninterp spec fn buf_cell_of(b: ratatui::buffer::Buffer, cx: int, cy: int) -> Seq<char>;

/// What the host's string writer treats as the visible graphemes of a
/// text, in order, each with its display width: the grapheme clusters
/// of the text, dropping any that contains a control character and any
/// of display width zero. Pages of unicode rules stand behind this, so
/// it only gets a name.
pub uninterp spec fn visible_graphemes(s: Seq<char>) -> Seq<(Seq<char>, u16)>;

/// The unicode display width of a text.
pub uninterp spec fn disp_width(s: Seq<char>) -> nat;

/// The width the library hands the host as a budget: a display width,
/// capped at the largest value the budget argument can carry.
pub open spec fn clamp_width(v: nat) -> int {
    if v > u16::MAX {
        u16::MAX as int
    } else {
        v as int
    }
}

/// The width budget the host gives a write of budget `width` starting
/// at column `x`: the room left to the buffer's right edge, capped by
/// `width`.
pub open spec fn write_budget(b: ratatui::buffer::Buffer, x: int, width: int) -> int {
    let avail = if buf_right(b) >= x {
        buf_right(b) - x
    } else {
        0
    };
    if width < avail {
        width
    } else {
        avail
    }
}

/// How many leading graphemes of `vg` the host writes within `budget`:
/// it writes greedily, stopping at the first grapheme whose width no
/// longer fits.
pub open spec fn written_count(vg: Seq<(Seq<char>, u16)>, budget: int) -> int
    decreases vg.len(),
{
    if vg.len() == 0 {
        0
    } else if vg[0].1 <= budget {
        1 + written_count(vg.skip(1), budget - vg[0].1)
    } else {
        0
    }
}

/// The total width of the graphemes the host writes within `budget`:
/// how far the write advances the column.
pub open spec fn consumed_width(vg: Seq<(Seq<char>, u16)>, budget: int) -> int
    decreases vg.len(),
{
    if vg.len() == 0 {
        0
    } else if vg[0].1 <= budget {
        vg[0].1 + consumed_width(vg.skip(1), budget - vg[0].1)
    } else {
        0
    }
}

/// The total width of the first `k` graphemes of `vg`: the column
/// offset at which the `k`-th written grapheme starts.
pub open spec fn prefix_width(vg: Seq<(Seq<char>, u16)>, k: int) -> int
    decreases k,
{
    if k <= 0 || vg.len() == 0 {
        0
    } else {
        vg[0].1 + prefix_width(vg.skip(1), k - 1)
    }
}

/// A write never writes a negative number of graphemes: the written
/// count is nonnegative for every grapheme sequence and every budget.
pub(crate) proof fn lemma_written_count_nonneg(vg: Seq<(Seq<char>, u16)>, budget: int)
    ensures
        written_count(vg, budget) >= 0,
    decreases vg.len(),
{
    if vg.len() != 0 && vg[0].1 <= budget {
        lemma_written_count_nonneg(vg.skip(1), budget - vg[0].1);
    }
}

/// A write never moves the column backwards: the consumed width is
/// nonnegative for every grapheme sequence and every budget.
pub(crate) proof fn lemma_consumed_width_nonneg(vg: Seq<(Seq<char>, u16)>, budget: int)
    ensures
        consumed_width(vg, budget) >= 0,
    decreases vg.len(),
{
    if vg.len() != 0 && vg[0].1 <= budget {
        lemma_consumed_width_nonneg(vg.skip(1), budget - vg[0].1);
    }
}

/// Relies on rand::random: a uniformly distributed value of the
/// backing type. Nothing can be promised of the result.
#[verifier::external_body]
pub(crate) fn random_position() -> i8 {
    rand::random()
}

/// Relies on ratatui's Style::default: an empty style. The style is
/// opaque to the library, so nothing is stated of it.
#[verifier::external_body]
pub(crate) fn style_default() -> ratatui::style::Style {
    ratatui::style::Style::default()
}

/// Relies on ratatui's Span::styled: the span holds exactly the given
/// content, with the given style.
#[verifier::external_body]
pub(crate) fn span_styled(content: String, style: ratatui::style::Style) -> (r: ratatui::text::Span<'static>)
    ensures
        span_content(r) == content@,
{
    ratatui::text::Span::styled(content, style)
}

/// Relies on ratatui's Span::patch_style: only the span's style
/// changes; its content is kept.
#[verifier::external_body]
pub(crate) fn span_patch_style<'a>(span: ratatui::text::Span<'a>, style: ratatui::style::Style) -> (r: ratatui::text::Span<'a>)
    ensures
        span_content(r) == span_content(span),
{
    span.patch_style(style)
}

/// Relies on ratatui's Style being a Copy type: a clone is the same
/// style.
pub assume_specification[ <ratatui::style::Style as Clone>::clone ](s: &ratatui::style::Style) -> (r: ratatui::style::Style)
    ensures
        r == *s,
;

/// Relies on ratatui's Span's derived Clone: the copy holds the same
/// content.
pub assume_specification<'a>[ <ratatui::text::Span<'a> as Clone>::clone ](s: &ratatui::text::Span<'a>) -> (r: ratatui::text::Span<'a>)
    ensures
        span_content(r) == span_content(*s),
;

/// Relies on ratatui's Span::width: the unicode display width of the
/// span's content, a function of the characters alone.
#[verifier::external_body]
pub(crate) fn span_width(span: &ratatui::text::Span) -> (r: usize)
    ensures
        r == disp_width(span_content(*span)),
{
    span.width()
}

/// Relies on ratatui's Line::from(Vec<Span>): the line holds exactly
/// the given spans, in order.
#[verifier::external_body]
pub(crate) fn line_from_spans<'a>(spans: Vec<ratatui::text::Span<'a>>) -> (r: ratatui::text::Line<'a>)
    ensures
        line_contents(r).len() == spans@.len(),
        forall|i: int| 0 <= i < spans@.len() ==> line_contents(r)[i] == span_content(spans@[i]),
{
    ratatui::text::Line::from(spans)
}

/// Relies on ratatui's Line::style: only the line's own style changes;
/// its spans are kept.
#[verifier::external_body]
pub(crate) fn line_style<'a>(line: ratatui::text::Line<'a>, style: ratatui::style::Style) -> (r: ratatui::text::Line<'a>)
    ensures
        line_contents(r) == line_contents(line),
{
    line.style(style)
}

/// Relies on ratatui's Buffer: `area` is a public field.
#[verifier::external_body]
pub(crate) fn buffer_area(buf: &ratatui::buffer::Buffer) -> (r: Rect)
    ensures
        r.x == buf_area_of(*buf).0,
        r.y == buf_area_of(*buf).1,
        r.width == buf_area_of(*buf).2,
        r.height == buf_area_of(*buf).3,
{
    Rect {
        x: buf.area.x,
        y: buf.area.y,
        width: buf.area.width,
        height: buf.area.height,
    }
}

/// Relies on ratatui's Buffer::set_style: it styles the cells in the
/// intersection of the given area with the buffer's rectangle, touches
/// no cell's content, never moves the rectangle and never aborts. An
/// area without a row or a column gives an empty intersection, so the
/// buffer is left exactly as it was.
#[verifier::external_body]
pub(crate) fn buf_set_style(buf: &mut ratatui::buffer::Buffer, area: &Rect, style: ratatui::style::Style)
    ensures
        buf_area_of(*final(buf)) == buf_area_of(*old(buf)),
        forall|cx: int, cy: int| buf_cell_of(*final(buf), cx, cy) == buf_cell_of(*old(buf), cx, cy),
        area.width == 0 || area.height == 0 ==> *final(buf) == *old(buf),
{
    buf.set_style(
        ratatui::layout::Rect {
            x: area.x,
            y: area.y,
            width: area.width,
            height: area.height,
        },
        style,
    );
}

/// Relies on ratatui's Buffer::set_span: it writes the span's visible
/// graphemes greedily along row `y` from column `x`, each at the
/// column the widths before it add up to, until the budget (the room
/// to the buffer's right edge, capped by `width`) no longer holds the
/// next one, and returns the cell after the written text. Cells on
/// other rows, left of `x`, or at and beyond the returned column are
/// left as they were; of the spare cells a multi-column grapheme
/// covers nothing is said. The host indexes the buffer directly and
/// aborts on a cell outside it, so a write may start only at a
/// writable cell.
#[verifier::external_body]
pub(crate) fn buf_set_span(buf: &mut ratatui::buffer::Buffer, x: u16, y: u16, span: &ratatui::text::Span, width: u16) -> (r: (u16, u16))
    requires
        writable_start(*old(buf), x, y),
    ensures
        r.0 >= x,
        r.1 == y,
        buf_area_of(*final(buf)) == buf_area_of(*old(buf)),
        r.0 == x + consumed_width(
            visible_graphemes(span_content(*span)),
            write_budget(*old(buf), x as int, width as int),
        ),
        forall|cx: int, cy: int| cy != y as int ==> buf_cell_of(*final(buf), cx, cy)
            == buf_cell_of(*old(buf), cx, cy),
        forall|cx: int| cx < x as int || cx >= r.0 as int ==> buf_cell_of(*final(buf), cx, y as int)
            == buf_cell_of(*old(buf), cx, y as int),
        forall|k: int|
            0 <= k < written_count(
                visible_graphemes(span_content(*span)),
                write_budget(*old(buf), x as int, width as int),
            ) ==> buf_cell_of(
                *final(buf),
                x + #[trigger] prefix_width(visible_graphemes(span_content(*span)), k),
                y as int,
            ) == visible_graphemes(span_content(*span))[k].0,
{
    buf.set_span(x, y, span, width)
}

} // verus!

