//! The animation state and the throbber widget.

use vstd::prelude::*;
use crate::symbols::throbber::SymbolSet;
use crate::symbols::throbber::WhichUse;
use vstd::arithmetic::div_mod::lemma_fundamental_div_mod;
use vstd::arithmetic::div_mod::lemma_fundamental_div_mod_converse_mod;
use vstd::arithmetic::div_mod::lemma_mod_division_less_than_divisor;
use vstd::string::StringExecFns;
use vstd::arithmetic::div_mod::lemma_mod_multiples_basic;
use vstd::arithmetic::div_mod::lemma_small_mod;

verus! {

/// A rectangular region of the output surface, in character cells.
///
/// `x` and `y` are the top-left corner; the region covers `width`
/// columns and `height` rows.
#[derive(Debug, Clone, Copy, PartialEq, Eq, Structural)]
pub struct Rect {
    pub x: u16,
    pub y: u16,
    pub width: u16,
    pub height: u16,
}

impl Rect {
    /// The leftmost column of the region.
    pub fn left(&self) -> (r: u16)
        ensures
            r == self.x,
    {
        self.x
    }

    /// The topmost row of the region.
    pub fn top(&self) -> (r: u16)
        ensures
            r == self.y,
    {
        self.y
    }

    /// The first row below the region, saturating at the largest row
    /// number.
    pub open spec fn spec_bottom(&self) -> int {
        if self.y + self.height <= u16::MAX {
            self.y + self.height
        } else {
            u16::MAX as int
        }
    }

    /// The first column to the right of the region, saturating at the
    /// largest column number.
    pub open spec fn spec_right(&self) -> int {
        if self.x + self.width <= u16::MAX {
            self.x + self.width
        } else {
            u16::MAX as int
        }
    }

    /// The first row below the region, saturating at the largest row
    /// number.
    pub fn bottom(&self) -> (r: u16)
        ensures
            r == self.spec_bottom(),
    {
        if self.height <= u16::MAX - self.y {
            self.y + self.height
        } else {
            u16::MAX
        }
    }

    /// The first column to the right of the region, saturating at the
    /// largest column number.
    pub fn right(&self) -> (r: u16)
        ensures
            r == self.spec_right(),
    {
        if self.width <= u16::MAX - self.x {
            self.x + self.width
        } else {
            u16::MAX
        }
    }
}

/// The floor-modulo rule that reduces a position into `[0, n)`.
///
/// In spec arithmetic `%` is Euclidean, so for `n > 0` the result is
/// already the mathematical modulo: nonnegative and congruent to `p`.
pub open spec fn floor_mod(p: int, n: int) -> int {
    p % n
}

/// What normalization does to a position `p` against a frame count
/// `n`: a degenerate count (none, or one that the backing 8-bit signed
/// position type cannot index) leaves the position unchanged;
/// otherwise the position becomes its floor modulo.
pub open spec fn norm_spec(p: int, n: int) -> int {
    if 1 <= n <= 127 {
        floor_mod(p, n)
    } else {
        p
    }
}

/// For every frame count `n > 0` and every position `p`, the
/// floor-modulo normalization lands in `[0, n)` and is congruent to
/// `p` modulo `n`.
pub proof fn lemma_normalize_in_range(p: int, n: int)
    requires
        0 < n,
    ensures
        0 <= floor_mod(p, n) < n,
        (p - floor_mod(p, n)) % n == 0,
{
    lemma_mod_division_less_than_divisor(p, n);
    lemma_fundamental_div_mod(p, n);
    let q = p / n;
    assert(p - floor_mod(p, n) == q * n) by (nonlinear_arith)
        requires
            p == n * q + p % n,
    ;
    lemma_mod_multiples_basic(q, n);
}

/// Normalization is idempotent: normalizing an already normalized
/// position changes nothing, for every frame count.
pub proof fn lemma_normalize_idempotent(p: int, n: int)
    ensures
        norm_spec(norm_spec(p, n), n) == norm_spec(p, n),
{
    if 1 <= n <= 127 {
        lemma_mod_division_less_than_divisor(p, n);
        lemma_small_mod((p % n) as nat, n as nat);
    }
}

/// A position already in `[0, n)` is left unchanged by normalization.
pub proof fn lemma_normalize_noop_in_range(p: int, n: int)
    requires
        0 <= p < n,
    ensures
        norm_spec(p, n) == p,
{
    if n <= 127 {
        lemma_small_mod(p as nat, n as nat);
    }
}

/// Normalization core: reduce `idx` into `[0, len)` by floor modulo.
///
/// Rust's `%` is a truncating remainder, so a negative position first
/// yields a remainder in `(-len, 0]`, which one addition of `len`
/// moves into `[0, len)`.
fn norm_index(idx: i8, len: usize) -> (r: i8)
    ensures
        r as int == norm_spec(idx as int, len as int),
{
    if len == 0 || len > 127 {
        idx
    } else {
        let l: i8 = len as i8;
        let m: i8 = idx % l;
        proof {
            let x = idx as int;
            let d = l as int;
            if x < 0 {
                let k = (0 - x) % d;
                lemma_mod_division_less_than_divisor(0 - x, d);
                lemma_fundamental_div_mod(0 - x, d);
                let q = (0 - x) / d;
                if k == 0 {
                    assert(x == (0 - q) * d + 0) by (nonlinear_arith)
                        requires
                            0 - x == d * q + k,
                            k == 0,
                    ;
                    lemma_fundamental_div_mod_converse_mod(x, d, 0 - q, 0);
                } else {
                    assert(x == (0 - q - 1) * d + (d - k)) by (nonlinear_arith)
                        requires
                            0 - x == d * q + k,
                    ;
                    lemma_fundamental_div_mod_converse_mod(x, d, 0 - q - 1, d - k);
                }
            } else {
                lemma_mod_division_less_than_divisor(x, d);
            }
        }
        if m < 0 {
            m + l
        } else {
            m
        }
    }
}

/// What a step does to a position: adding the amount, clamped to the
/// bounds of the backing 8-bit signed type.
pub open spec fn sat_add(p: int, amount: int) -> int {
    let v = p + amount;
    if v > i8::MAX as int {
        i8::MAX as int
    } else if v < i8::MIN as int {
        i8::MIN as int
    } else {
        v
    }
}

/// A step never leaves the bounds of the backing 8-bit signed type:
/// for every starting position and every amount, the saturating step
/// lands in `[i8::MIN, i8::MAX]`.
pub proof fn lemma_step_stays_in_bounds(p: int, amount: int)
    ensures
        i8::MIN as int <= sat_add(p, amount) <= i8::MAX as int,
{
}

/// State to be used for Throbber render.
#[derive(Debug, Clone, PartialEq, Eq, Structural)]
pub struct ThrobberState {
    /// Position in the frame sequence used when Spin is specified for
    /// WhichUse.
    ///
    /// If out of range, it is normalized at render time.
    index: i8,
}

impl ThrobberState {
    /// The position as a mathematical value.
    pub closed spec fn idx(&self) -> i8 {
        self.index
    }

    /// Get the position.
    pub fn index(&self) -> (r: i8)
        ensures
            r == self.idx(),
    {
        self.index
    }

    /// Increase the position by one step, saturating at the upper
    /// bound.
    pub fn calc_next(&mut self)
        ensures
            final(self).idx() as int == sat_add(old(self).idx() as int, 1),
    {
        self.calc_step(1);
    }

    /// Move the position by `step`, which may be negative.
    ///
    /// A step of 0 sets the position to a random value instead, for
    /// indeterminate progress when no tick source is available.
    /// A nonzero step saturates at the bounds of the backing type
    /// rather than wrapping or aborting.
    pub fn calc_step(&mut self, step: i8)
        ensures
            step != 0 ==> final(self).idx() as int == sat_add(old(self).idx() as int, step as int),
    {
        if step == 0 {
            self.index = crate::host::random_position();
        } else if step > 0 {
            if self.index > i8::MAX - step {
                self.index = i8::MAX;
            } else {
                self.index = self.index + step;
            }
        } else {
            if self.index < i8::MIN - step {
                self.index = i8::MIN;
            } else {
                self.index = self.index + step;
            }
        }
    }

    /// Reduce the position into the range of the throbber's frame
    /// sequence, by floor modulo: a negative position wraps to the
    /// tail. A degenerate frame count leaves the position unchanged.
    pub fn normalize(&mut self, throbber: &Throbber)
        ensures
            final(self).idx() as int == norm_spec(
                old(self).idx() as int,
                throbber.spec_set().symbols@.len() as int,
            ),
    {
        self.index = norm_index(self.index, throbber.throbber_set.symbols.len());
    }
}

impl Default for ThrobberState {
    /// A fresh state, at position 0.
    fn default() -> (r: Self)
        ensures
            r.idx() == 0,
    {
        ThrobberState { index: 0 }
    }
}

/// The glyph that one render of a throbber shows, as a function of the
/// symbol set, the use mode, and the position.
pub open spec fn chosen_symbol(set: SymbolSet, use_type: WhichUse, pos: i8) -> Seq<char> {
    match use_type {
        WhichUse::Full => set.full@,
        WhichUse::Empty => set.empty@,
        WhichUse::Spin => {
            let n = set.symbols@.len() as int;
            let p = norm_spec(pos as int, n);
            if 0 <= p < n {
                set.symbols@[p]@
            } else {
                set.empty@
            }
        },
    }
}

/// The text the symbol write hands the host: the chosen glyph
/// followed by one space.
pub open spec fn padded_symbol(set: SymbolSet, use_type: WhichUse, pos: i8) -> Seq<char> {
    chosen_symbol(set, use_type, pos).push(' ')
}

/// The width budget of the symbol write of a render into `area` of
/// `b`: the room to the surface's right edge, capped by the padded
/// glyph's own display width.
pub open spec fn symbol_budget(b: ratatui::buffer::Buffer, area: Rect, padded: Seq<char>) -> int {
    crate::host::write_budget(
        b,
        area.x as int,
        crate::host::clamp_width(crate::host::disp_width(padded)),
    )
}

/// The column right after the symbol write of a render into `area` of
/// `b`: where a label would start.
pub open spec fn symbol_end_col(b: ratatui::buffer::Buffer, area: Rect, padded: Seq<char>) -> int {
    area.x + crate::host::consumed_width(
        crate::host::visible_graphemes(padded),
        symbol_budget(b, area, padded),
    )
}

/// A compact widget to display a throbber.
///
/// A throbber may also be called:
/// - activity indicator
/// - indeterminate progress bar
/// - loading icon
/// - spinner
/// - guru guru
#[derive(Debug, Clone, PartialEq, Eq)]
pub struct Throbber<'a> {
    label: Option<ratatui::text::Span<'a>>,
    style: ratatui::style::Style,
    throbber_style: ratatui::style::Style,
    throbber_set: SymbolSet,
    use_type: WhichUse,
}

impl<'a> Throbber<'a> {
    /// The configured label.
    pub closed spec fn spec_label(&self) -> Option<ratatui::text::Span<'a>> {
        self.label
    }

    /// The configured base style.
    pub closed spec fn spec_style(&self) -> ratatui::style::Style {
        self.style
    }

    /// The configured symbol style.
    pub closed spec fn spec_throbber_style(&self) -> ratatui::style::Style {
        self.throbber_style
    }

    /// The configured symbol set.
    pub closed spec fn spec_set(&self) -> SymbolSet {
        self.throbber_set
    }

    /// The configured use mode.
    pub closed spec fn spec_use(&self) -> WhichUse {
        self.use_type
    }

    pub fn label(self, label: ratatui::text::Span<'a>) -> (r: Self)
        ensures
            r.spec_label() == Some(label),
            r.spec_style() == self.spec_style(),
            r.spec_throbber_style() == self.spec_throbber_style(),
            r.spec_set() == self.spec_set(),
            r.spec_use() == self.spec_use(),
    {
        Self { label: Some(label), ..self }
    }

    pub fn style(self, style: ratatui::style::Style) -> (r: Self)
        ensures
            r.spec_style() == style,
            r.spec_label() == self.spec_label(),
            r.spec_throbber_style() == self.spec_throbber_style(),
            r.spec_set() == self.spec_set(),
            r.spec_use() == self.spec_use(),
    {
        Self { style, ..self }
    }

    pub fn throbber_style(self, style: ratatui::style::Style) -> (r: Self)
        ensures
            r.spec_throbber_style() == style,
            r.spec_label() == self.spec_label(),
            r.spec_style() == self.spec_style(),
            r.spec_set() == self.spec_set(),
            r.spec_use() == self.spec_use(),
    {
        Self { throbber_style: style, ..self }
    }

    pub fn throbber_set(self, set: SymbolSet) -> (r: Self)
        ensures
            r.spec_set() == set,
            r.spec_label() == self.spec_label(),
            r.spec_style() == self.spec_style(),
            r.spec_throbber_style() == self.spec_throbber_style(),
            r.spec_use() == self.spec_use(),
    {
        Self { throbber_set: set, ..self }
    }

    pub fn use_type(self, use_type: WhichUse) -> (r: Self)
        ensures
            r.spec_use() == use_type,
            r.spec_label() == self.spec_label(),
            r.spec_style() == self.spec_style(),
            r.spec_throbber_style() == self.spec_throbber_style(),
            r.spec_set() == self.spec_set(),
    {
        Self { use_type, ..self }
    }

    /// Pick the glyph that the given position selects: the full or
    /// empty glyph in the fixed modes, and in Spin mode the frame at
    /// the normalized position, falling back to the empty glyph when
    /// the frame sequence cannot be indexed.
    fn select_symbol(&self, state: &ThrobberState) -> (r: &'a str)
        ensures
            r@ == chosen_symbol(self.spec_set(), self.spec_use(), state.idx()),
    {
        match self.use_type {
            WhichUse::Full => self.throbber_set.full,
            WhichUse::Empty => self.throbber_set.empty,
            WhichUse::Spin => {
                let idx = norm_index(state.index(), self.throbber_set.symbols.len());
                if 0 <= idx && (idx as usize) < self.throbber_set.symbols.len() {
                    self.throbber_set.symbols[idx as usize]
                } else {
                    self.throbber_set.empty
                }
            },
        }
    }

    /// Convert symbol only to Span with state.
    ///
    /// The span holds the selected glyph followed by one space, styled
    /// with the base style patched by the symbol style.
    pub fn to_symbol_span(&self, state: &ThrobberState) -> (r: ratatui::text::Span<'a>)
        ensures
            crate::host::span_content(r) == chosen_symbol(
                self.spec_set(),
                self.spec_use(),
                state.idx(),
            ).push(' '),
    {
        let symbol = self.select_symbol(state);
        let mut padded = String::from_str(symbol);
        padded.append(" ");
        proof {
            reveal_strlit(" ");
            assert(padded@ =~= symbol@.push(' '));
        }
        let span = crate::host::span_styled(padded, self.style);
        crate::host::span_patch_style(span, self.throbber_style)
    }

    /// Convert symbol and label to Line with state.
    ///
    /// The line holds the symbol span, then the label if one is
    /// configured.
    pub fn to_line(&self, state: &ThrobberState) -> (r: ratatui::text::Line<'a>)
        ensures
            crate::host::line_contents(r).len() == if self.spec_label() is Some { 2int } else { 1int },
            crate::host::line_contents(r)[0] == chosen_symbol(
                self.spec_set(),
                self.spec_use(),
                state.idx(),
            ).push(' '),
            self.spec_label() matches Some(l) ==> crate::host::line_contents(r)[1]
                == crate::host::span_content(l),
    {
        let mut spans: Vec<ratatui::text::Span<'a>> = Vec::new();
        spans.push(self.to_symbol_span(state));
        if let Some(label) = &self.label {
            spans.push(label.clone());
        }
        let line = crate::host::line_from_spans(spans);
        crate::host::line_style(line, self.style)
    }

    /// Render one frame into `area` of the output surface `buf`,
    /// consuming one step of `state`.
    ///
    /// The whole area takes the base style. A region of less than one
    /// row leaves the surface exactly as it was. In Spin mode the
    /// position is normalized against the frame count; the fixed modes
    /// leave the state untouched. Where the region's top-left cell can
    /// be written and the padded glyph's first visible grapheme fits
    /// the budget, that grapheme stands in the cell afterwards; the
    /// label follows from the post-glyph column when that column is
    /// left of the region's right edge, and otherwise the row beyond
    /// the glyph is left untouched.
    pub fn render(self, area: Rect, buf: &mut ratatui::buffer::Buffer, state: &mut ThrobberState)
        ensures
            area.height == 0 ==> final(state).idx() == old(state).idx(),
            area.height == 0 ==> *final(buf) == *old(buf),
            area.height > 0 && self.spec_use() == WhichUse::Spin ==> final(state).idx() as int
                == norm_spec(old(state).idx() as int, self.spec_set().symbols@.len() as int),
            area.height > 0 && self.spec_use() != WhichUse::Spin ==> final(state).idx() == old(state).idx(),
            ({
                let padded = padded_symbol(self.spec_set(), self.spec_use(), old(state).idx());
                let vg = crate::host::visible_graphemes(padded);
                area.height > 0
                    && crate::host::writable_start(*old(buf), area.x, area.y)
                    && vg.len() > 0
                    && 0 < vg[0].1
                    && vg[0].1 <= symbol_budget(*old(buf), area, padded)
                    ==> crate::host::buf_cell_of(*final(buf), area.x as int, area.y as int)
                        == vg[0].0
            }),
            ({
                let padded = padded_symbol(self.spec_set(), self.spec_use(), old(state).idx());
                let col = symbol_end_col(*old(buf), area, padded);
                area.height > 0
                    && crate::host::writable_start(*old(buf), area.x, area.y)
                    && self.spec_label() is Some
                    && area.spec_right() <= col
                    ==> forall|cx: int| cx >= col
                        ==> crate::host::buf_cell_of(*final(buf), cx, area.y as int)
                            == crate::host::buf_cell_of(*old(buf), cx, area.y as int)
            }),
            ({
                let padded = padded_symbol(self.spec_set(), self.spec_use(), old(state).idx());
                let col = symbol_end_col(*old(buf), area, padded);
                area.height > 0
                    && crate::host::writable_start(*old(buf), area.x, area.y)
                    && col < area.spec_right()
                    ==> (self.spec_label() matches Some(l) ==> ({
                        let lvg = crate::host::visible_graphemes(crate::host::span_content(l));
                        let lbudget = crate::host::write_budget(
                            *old(buf),
                            col,
                            crate::host::clamp_width(
                                crate::host::disp_width(crate::host::span_content(l)),
                            ),
                        );
                        lvg.len() > 0 && 0 < lvg[0].1 && lvg[0].1 <= lbudget
                            ==> crate::host::buf_cell_of(*final(buf), col, area.y as int)
                                == lvg[0].0
                    }))
            }),
    {
        crate::host::buf_set_style(buf, &area, self.style);

        if area.height < 1 {
            return;
        }

        let symbol: &str = match self.use_type {
            WhichUse::Full => self.throbber_set.full,
            WhichUse::Empty => self.throbber_set.empty,
            WhichUse::Spin => {
                state.normalize(&self);
                let idx = state.index();
                if 0 <= idx && (idx as usize) < self.throbber_set.symbols.len() {
                    self.throbber_set.symbols[idx as usize]
                } else {
                    self.throbber_set.empty
                }
            },
        };
        let mut padded = String::from_str(symbol);
        padded.append(" ");
        proof {
            reveal_strlit(" ");
            assert(padded@ =~= symbol@.push(' '));
        }
        let symbol_span = crate::host::span_styled(padded, self.throbber_style);

        let x = area.left();
        let y = area.top();
        let surface = crate::host::buffer_area(buf);
        // The host aborts on a write that starts outside the surface;
        // such a region is skipped instead, as every other edge case
        // degrades to a silent no-op.
        if !(x >= surface.right() || (surface.left() <= x && surface.top() <= y && y < surface.bottom())) {
            return;
        }

        let w = crate::host::span_width(&symbol_span);
        let w16: u16 = if w > u16::MAX as usize {
            u16::MAX
        } else {
            w as u16
        };
        let (col, row) = crate::host::buf_set_span(buf, x, y, &symbol_span, w16);
        proof {
            let padded_s = padded_symbol(self.spec_set(), self.spec_use(), old(state).idx());
            let vg = crate::host::visible_graphemes(padded_s);
            let budget = symbol_budget(*old(buf), area, padded_s);
            if vg.len() > 0 && vg[0].1 <= budget {
                crate::host::lemma_consumed_width_nonneg(vg.skip(1), budget - vg[0].1);
                crate::host::lemma_written_count_nonneg(vg.skip(1), budget - vg[0].1);
                assert(crate::host::written_count(vg, budget) >= 1);
                assert(crate::host::prefix_width(vg, 0) == 0);
            }
        }

        if let Some(label) = self.label {
            if area.right() <= col {
                return;
            }
            let lw = crate::host::span_width(&label);
            let lw16: u16 = if lw > u16::MAX as usize {
                u16::MAX
            } else {
                lw as u16
            };
            crate::host::buf_set_span(buf, col, row, &label, lw16);
            proof {
                let lc = crate::host::span_content(label);
                let lvg = crate::host::visible_graphemes(lc);
                let lbudget = crate::host::write_budget(
                    *old(buf),
                    col as int,
                    crate::host::clamp_width(crate::host::disp_width(lc)),
                );
                if lvg.len() > 0 && lvg[0].1 <= lbudget {
                    crate::host::lemma_written_count_nonneg(lvg.skip(1), lbudget - lvg[0].1);
                    assert(crate::host::written_count(lvg, lbudget) >= 1);
                    assert(crate::host::prefix_width(lvg, 0) == 0);
                }
            }
        }
    }
}

impl<'a> Default for Throbber<'a> {
    /// No label, default styles, the six-frame braille set, Spin mode.
    fn default() -> (r: Self)
        ensures
            r.spec_label() is None,
            r.spec_use() == WhichUse::Spin,
            crate::symbols::throbber::is_braille_six(r.spec_set()),
    {
        Self {
            label: None,
            style: crate::host::style_default(),
            throbber_style: crate::host::style_default(),
            throbber_set: crate::symbols::throbber::braille_six(),
            use_type: WhichUse::Spin,
        }
    }
}

} // verus!


