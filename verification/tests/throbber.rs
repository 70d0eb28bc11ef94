use throbber_widgets_tui::Rect;
use throbber_widgets_tui::SymbolSet;
use throbber_widgets_tui::Throbber;
use throbber_widgets_tui::ThrobberState;
use throbber_widgets_tui::WhichUse;
use throbber_widgets_tui::braille_six;

#[test]
fn throbber_state_calc_step() {
    let mut throbber_state = ThrobberState::default();
    assert_eq!(throbber_state.index(), 0);

    // random test
    // The probability of failure is not zero, but it is as low as possible.
    let mut difference = false;
    for _ in 0..100 {
        throbber_state.calc_step(0);
        assert!((i8::MIN..=i8::MAX).contains(&throbber_state.index()));

        if 0 != throbber_state.index() {
            difference = true;
        }
    }
    assert!(difference);
}

#[test]
fn throbber_state_normalize() {
    let mut throbber_state = ThrobberState::default();
    let throbber = Throbber::default();
    let len = braille_six().symbols.len() as i8;
    let max = len - 1;

    // check upper
    throbber_state.calc_step(max);
    throbber_state.normalize(&throbber);
    assert_eq!(throbber_state.index(), max);

    // check overflow
    throbber_state.calc_next();
    throbber_state.normalize(&throbber);
    assert_eq!(throbber_state.index(), 0);

    // check underflow
    throbber_state.calc_step(-1);
    throbber_state.normalize(&throbber);
    assert_eq!(throbber_state.index(), max);

    // check negative out of range
    throbber_state.calc_step(len * -2);
    throbber_state.normalize(&throbber);
    assert_eq!(throbber_state.index(), max);
}

#[test]
fn throbber_reaches_upper_limit_step_resets_to_zero() {
    let mut throbber_state = ThrobberState::default();

    for _ in 0..i8::MAX {
        throbber_state.calc_next();
    }
    // One more step past the upper bound saturates there instead of
    // wrapping or aborting.
    throbber_state.calc_next();
    assert_eq!(throbber_state.index(), i8::MAX);
}

#[test]
fn throbber_converts_to_span() {
    let throbber = Throbber::default().use_type(WhichUse::Full);
    let state = ThrobberState::default();
    let span: ratatui::text::Span = throbber.to_symbol_span(&state);
    assert_eq!(span.content, "⠿ ");
}

#[test]
fn throbber_converts_to_line() {
    let throbber = Throbber::default().use_type(WhichUse::Full);
    let state = ThrobberState::default();
    let line: ratatui::text::Line = throbber.to_line(&state);
    assert_eq!(line.spans[0].content, "⠿ ");
}

#[test]
fn advance_wraps_exactly_at_frame_count() {
    // position 0, six advances against a six-frame set: 6, then 0.
    let mut state = ThrobberState::default();
    let throbber = Throbber::default();
    for _ in 0..6 {
        state.calc_next();
    }
    assert_eq!(state.index(), 6);
    state.normalize(&throbber);
    assert_eq!(state.index(), 0);
}

#[test]
fn negative_position_wraps_to_tail() {
    // position 0, one step back: -1 normalizes to 5 against six frames.
    let mut state = ThrobberState::default();
    let throbber = Throbber::default();
    state.calc_step(-1);
    assert_eq!(state.index(), -1);
    state.normalize(&throbber);
    assert_eq!(state.index(), 5);
}

#[test]
fn far_negative_position_floor_modulo() {
    // -14 against six frames: the remainder -2 wraps to 4.
    let mut state = ThrobberState::default();
    let throbber = Throbber::default();
    state.calc_step(-14);
    assert_eq!(state.index(), -14);
    state.normalize(&throbber);
    assert_eq!(state.index(), 4);
}

#[test]
fn calc_step_examples() {
    let mut state = ThrobberState::default();
    state.calc_step(2);
    assert_eq!(state.index(), 2);
    state.calc_step(-3);
    assert_eq!(state.index(), -1);
}

#[test]
fn calc_step_saturates_at_lower_bound() {
    let mut state = ThrobberState::default();
    state.calc_step(-128);
    assert_eq!(state.index(), i8::MIN);
    state.calc_step(-1);
    assert_eq!(state.index(), i8::MIN);
}

#[test]
fn normalize_empty_set_is_noop() {
    let empty_set = SymbolSet {
        full: "*",
        empty: " ",
        symbols: Vec::new(),
    };
    let throbber = Throbber::default().throbber_set(empty_set);
    let mut state = ThrobberState::default();
    state.calc_step(5);
    state.normalize(&throbber);
    assert_eq!(state.index(), 5);
}

#[test]
fn normalize_is_idempotent_on_values() {
    let throbber = Throbber::default();
    for start in [-128i8, -7, -1, 3, 6, 11, 127] {
        let mut once = ThrobberState::default();
        once.calc_step(start);
        once.normalize(&throbber);
        let first = once.index();
        once.normalize(&throbber);
        assert_eq!(once.index(), first);
        assert!((0..6).contains(&first));
    }
}

fn new_buffer(width: u16, height: u16) -> ratatui::buffer::Buffer {
    ratatui::buffer::Buffer::empty(ratatui::layout::Rect::new(0, 0, width, height))
}

#[test]
fn zero_height_region_renders_nothing() {
    let mut buf = new_buffer(10, 3);
    let untouched = buf.clone();
    let throbber = Throbber::default();
    let mut state = ThrobberState::default();
    let area = Rect { x: 0, y: 0, width: 10, height: 0 };
    throbber.render(area, &mut buf, &mut state);
    assert_eq!(buf, untouched);
    assert_eq!(state.index(), 0);
}

#[test]
fn full_mode_renders_full_glyph_regardless_of_position() {
    for step in [-100i8, -1, 1, 5, 100] {
        let mut buf = new_buffer(10, 1);
        let throbber = Throbber::default().use_type(WhichUse::Full);
        let mut state = ThrobberState::default();
        state.calc_step(step);
        let area = Rect { x: 0, y: 0, width: 10, height: 1 };
        throbber.render(area, &mut buf, &mut state);
        assert_eq!(buf.cell((0, 0)).unwrap().symbol(), "⠿");
        assert_eq!(buf.cell((1, 0)).unwrap().symbol(), " ");
        // The fixed mode leaves the position untouched.
        assert_eq!(state.index(), step);
    }
}

#[test]
fn empty_mode_renders_empty_glyph() {
    let mut buf = new_buffer(10, 1);
    let set = SymbolSet {
        full: "*",
        empty: ".",
        symbols: vec!["a", "b"],
    };
    let throbber = Throbber::default().throbber_set(set).use_type(WhichUse::Empty);
    let mut state = ThrobberState::default();
    let area = Rect { x: 0, y: 0, width: 10, height: 1 };
    throbber.render(area, &mut buf, &mut state);
    assert_eq!(buf.cell((0, 0)).unwrap().symbol(), ".");
}

#[test]
fn spin_mode_renders_normalized_frame() {
    let mut buf = new_buffer(10, 1);
    let set = SymbolSet {
        full: "*",
        empty: " ",
        symbols: vec!["0", "1", "2", "3"],
    };
    let throbber = Throbber::default().throbber_set(set).use_type(WhichUse::Spin);
    let mut state = ThrobberState::default();
    state.calc_step(-3);
    let area = Rect { x: 0, y: 0, width: 10, height: 1 };
    throbber.render(area, &mut buf, &mut state);
    // -3 normalizes to 1 against four frames.
    assert_eq!(state.index(), 1);
    assert_eq!(buf.cell((0, 0)).unwrap().symbol(), "1");
    assert_eq!(buf.cell((1, 0)).unwrap().symbol(), " ");
}

#[test]
fn spin_mode_empty_set_falls_back_to_empty_glyph() {
    let mut buf = new_buffer(10, 1);
    let set = SymbolSet {
        full: "*",
        empty: "e",
        symbols: Vec::new(),
    };
    let throbber = Throbber::default().throbber_set(set).use_type(WhichUse::Spin);
    let mut state = ThrobberState::default();
    state.calc_step(3);
    let area = Rect { x: 0, y: 0, width: 10, height: 1 };
    throbber.render(area, &mut buf, &mut state);
    assert_eq!(buf.cell((0, 0)).unwrap().symbol(), "e");
    // A degenerate set leaves the position unchanged.
    assert_eq!(state.index(), 3);
}

#[test]
fn render_writes_label_after_symbol() {
    let mut buf = new_buffer(12, 1);
    let throbber = Throbber::default()
        .use_type(WhichUse::Full)
        .label(ratatui::text::Span::raw("OK"));
    let mut state = ThrobberState::default();
    let area = Rect { x: 0, y: 0, width: 12, height: 1 };
    throbber.render(area, &mut buf, &mut state);
    assert_eq!(buf.cell((0, 0)).unwrap().symbol(), "⠿");
    assert_eq!(buf.cell((1, 0)).unwrap().symbol(), " ");
    assert_eq!(buf.cell((2, 0)).unwrap().symbol(), "O");
    assert_eq!(buf.cell((3, 0)).unwrap().symbol(), "K");
}

#[test]
fn render_skips_label_without_room() {
    let mut buf = new_buffer(12, 1);
    let throbber = Throbber::default()
        .use_type(WhichUse::Full)
        .label(ratatui::text::Span::raw("OK"));
    let mut state = ThrobberState::default();
    // The region ends right after the symbol and its trailing space.
    let area = Rect { x: 0, y: 0, width: 2, height: 1 };
    throbber.render(area, &mut buf, &mut state);
    assert_eq!(buf.cell((0, 0)).unwrap().symbol(), "⠿");
    assert_eq!(buf.cell((1, 0)).unwrap().symbol(), " ");
    assert_eq!(buf.cell((2, 0)).unwrap().symbol(), " ");
    assert_eq!(buf.cell((3, 0)).unwrap().symbol(), " ");
}

#[test]
fn to_line_keeps_label_content() {
    let throbber = Throbber::default()
        .use_type(WhichUse::Full)
        .label(ratatui::text::Span::raw("NOW LOADING..."));
    let state = ThrobberState::default();
    let line = throbber.to_line(&state);
    assert_eq!(line.spans.len(), 2);
    assert_eq!(line.spans[0].content, "⠿ ");
    assert_eq!(line.spans[1].content, "NOW LOADING...");
}

#[test]
fn to_symbol_span_spin_uses_normalized_frame() {
    let set = SymbolSet {
        full: "*",
        empty: " ",
        symbols: vec!["0", "1", "2", "3", "4", "5"],
    };
    let throbber = Throbber::default().throbber_set(set).use_type(WhichUse::Spin);
    let mut state = ThrobberState::default();
    state.calc_step(-14);
    let span = throbber.to_symbol_span(&state);
    // -14 normalizes to 4 against six frames; the state itself is not
    // consumed by the conversion.
    assert_eq!(span.content, "4 ");
    assert_eq!(state.index(), -14);
}

#[test]
fn symbol_sets_have_expected_shape() {
    let checks: Vec<(SymbolSet, usize)> = vec![
        (throbber_widgets_tui::ascii(), 4),
        (throbber_widgets_tui::box_drawing(), 4),
        (throbber_widgets_tui::arrow(), 8),
        (throbber_widgets_tui::double_arrow(), 8),
        (throbber_widgets_tui::vertical_block(), 8),
        (throbber_widgets_tui::horizontal_block(), 8),
        (throbber_widgets_tui::quadrant_block(), 4),
        (throbber_widgets_tui::quadrant_block_crack(), 4),
        (throbber_widgets_tui::white_square(), 4),
        (throbber_widgets_tui::white_circle(), 4),
        (throbber_widgets_tui::black_circle(), 4),
        (throbber_widgets_tui::clock(), 24),
        (throbber_widgets_tui::braille_one(), 6),
        (throbber_widgets_tui::braille_double(), 6),
        (throbber_widgets_tui::braille_six(), 6),
        (throbber_widgets_tui::braille_six_double(), 6),
        (throbber_widgets_tui::braille_eight(), 8),
        (throbber_widgets_tui::braille_eight_double(), 8),
        (throbber_widgets_tui::ogham_a(), 6),
        (throbber_widgets_tui::ogham_b(), 6),
        (throbber_widgets_tui::ogham_c(), 6),
        (throbber_widgets_tui::parenthesis(), 6),
        (throbber_widgets_tui::canadian(), 4),
    ];
    for (set, frames) in checks {
        assert_eq!(set.symbols.len(), frames);
        assert!(!set.full.is_empty());
        assert!(!set.empty.is_empty());
    }
    assert_eq!(throbber_widgets_tui::ascii().symbols, vec!["|", "/", "-", "\\"]);
    assert_eq!(braille_six().full, "⠿");
}
