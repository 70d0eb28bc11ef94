//! Named symbol sets: each set has a dedicated "full" glyph, a
//! dedicated "empty" glyph, and an ordered sequence of animation
//! frames.

use vstd::prelude::*;

verus! {

/// A set of symbols to be rendered by throbber.
#[derive(Debug, Clone, PartialEq, Eq)]
pub struct SymbolSet {
    pub full: &'static str,
    pub empty: &'static str,
    pub symbols: Vec<&'static str>,
}

/// Rendering object.
///
/// If Spin is specified, the throbber state's position is used.
#[derive(Debug, Clone, PartialEq, Eq)]
pub enum WhichUse {
    Full,
    Empty,
    Spin,
}

/// ["|", "/", "-", "\\"]
pub fn ascii() -> (r: SymbolSet)
    ensures
        r.full@ == "*"@,
        r.empty@ == " "@,
        r.symbols@.len() == 4,
        r.symbols@[0]@ == "|"@,
        r.symbols@[1]@ == "/"@,
        r.symbols@[2]@ == "-"@,
        r.symbols@[3]@ == "\\"@,
{
    let mut symbols: Vec<&'static str> = Vec::new();
    symbols.push("|");
    symbols.push("/");
    symbols.push("-");
    symbols.push("\\");
    SymbolSet { full: "*", empty: " ", symbols }
}

/// ["│", "╱", "─", "╲"]
pub fn box_drawing() -> (r: SymbolSet)
    ensures
        r.full@ == "┼"@,
        r.empty@ == "　"@,
        r.symbols@.len() == 4,
        r.symbols@[0]@ == "│"@,
        r.symbols@[1]@ == "╱"@,
        r.symbols@[2]@ == "─"@,
        r.symbols@[3]@ == "╲"@,
{
    let mut symbols: Vec<&'static str> = Vec::new();
    symbols.push("│");
    symbols.push("╱");
    symbols.push("─");
    symbols.push("╲");
    SymbolSet { full: "┼", empty: "　", symbols }
}

/// ["↑", "↗", "→", "↘", "↓", "↙", "←", "↖"]
pub fn arrow() -> (r: SymbolSet)
    ensures
        r.full@ == "↔"@,
        r.empty@ == "　"@,
        r.symbols@.len() == 8,
        r.symbols@[0]@ == "↑"@,
        r.symbols@[1]@ == "↗"@,
        r.symbols@[2]@ == "→"@,
        r.symbols@[3]@ == "↘"@,
        r.symbols@[4]@ == "↓"@,
        r.symbols@[5]@ == "↙"@,
        r.symbols@[6]@ == "←"@,
        r.symbols@[7]@ == "↖"@,
{
    let mut symbols: Vec<&'static str> = Vec::new();
    symbols.push("↑");
    symbols.push("↗");
    symbols.push("→");
    symbols.push("↘");
    symbols.push("↓");
    symbols.push("↙");
    symbols.push("←");
    symbols.push("↖");
    SymbolSet { full: "↔", empty: "　", symbols }
}

/// ["⇑", "⇗", "⇒", "⇘", "⇓", "⇙", "⇐", "⇖"]
pub fn double_arrow() -> (r: SymbolSet)
    ensures
        r.full@ == "⇔"@,
        r.empty@ == "　"@,
        r.symbols@.len() == 8,
        r.symbols@[0]@ == "⇑"@,
        r.symbols@[1]@ == "⇗"@,
        r.symbols@[2]@ == "⇒"@,
        r.symbols@[3]@ == "⇘"@,
        r.symbols@[4]@ == "⇓"@,
        r.symbols@[5]@ == "⇙"@,
        r.symbols@[6]@ == "⇐"@,
        r.symbols@[7]@ == "⇖"@,
{
    let mut symbols: Vec<&'static str> = Vec::new();
    symbols.push("⇑");
    symbols.push("⇗");
    symbols.push("⇒");
    symbols.push("⇘");
    symbols.push("⇓");
    symbols.push("⇙");
    symbols.push("⇐");
    symbols.push("⇖");
    SymbolSet { full: "⇔", empty: "　", symbols }
}

/// ["▁", "▂", "▃", "▄", "▅", "▆", "▇", "█"]
pub fn vertical_block() -> (r: SymbolSet)
    ensures
        r.full@ == "█"@,
        r.empty@ == "　"@,
        r.symbols@.len() == 8,
        r.symbols@[0]@ == "▁"@,
        r.symbols@[1]@ == "▂"@,
        r.symbols@[2]@ == "▃"@,
        r.symbols@[3]@ == "▄"@,
        r.symbols@[4]@ == "▅"@,
        r.symbols@[5]@ == "▆"@,
        r.symbols@[6]@ == "▇"@,
        r.symbols@[7]@ == "█"@,
{
    let mut symbols: Vec<&'static str> = Vec::new();
    symbols.push("▁");
    symbols.push("▂");
    symbols.push("▃");
    symbols.push("▄");
    symbols.push("▅");
    symbols.push("▆");
    symbols.push("▇");
    symbols.push("█");
    SymbolSet { full: "█", empty: "　", symbols }
}

/// ["▏", "▎", "▍", "▌", "▋", "▊", "▉", "█"]
pub fn horizontal_block() -> (r: SymbolSet)
    ensures
        r.full@ == "█"@,
        r.empty@ == "　"@,
        r.symbols@.len() == 8,
        r.symbols@[0]@ == "▏"@,
        r.symbols@[1]@ == "▎"@,
        r.symbols@[2]@ == "▍"@,
        r.symbols@[3]@ == "▌"@,
        r.symbols@[4]@ == "▋"@,
        r.symbols@[5]@ == "▊"@,
        r.symbols@[6]@ == "▉"@,
        r.symbols@[7]@ == "█"@,
{
    let mut symbols: Vec<&'static str> = Vec::new();
    symbols.push("▏");
    symbols.push("▎");
    symbols.push("▍");
    symbols.push("▌");
    symbols.push("▋");
    symbols.push("▊");
    symbols.push("▉");
    symbols.push("█");
    SymbolSet { full: "█", empty: "　", symbols }
}

/// ["▝", "▗", "▖", "▘"]
pub fn quadrant_block() -> (r: SymbolSet)
    ensures
        r.full@ == "█"@,
        r.empty@ == "　"@,
        r.symbols@.len() == 4,
        r.symbols@[0]@ == "▝"@,
        r.symbols@[1]@ == "▗"@,
        r.symbols@[2]@ == "▖"@,
        r.symbols@[3]@ == "▘"@,
{
    let mut symbols: Vec<&'static str> = Vec::new();
    symbols.push("▝");
    symbols.push("▗");
    symbols.push("▖");
    symbols.push("▘");
    SymbolSet { full: "█", empty: "　", symbols }
}

/// ["▙", "▛", "▜", "▟"]
pub fn quadrant_block_crack() -> (r: SymbolSet)
    ensures
        r.full@ == "█"@,
        r.empty@ == "　"@,
        r.symbols@.len() == 4,
        r.symbols@[0]@ == "▙"@,
        r.symbols@[1]@ == "▛"@,
        r.symbols@[2]@ == "▜"@,
        r.symbols@[3]@ == "▟"@,
{
    let mut symbols: Vec<&'static str> = Vec::new();
    symbols.push("▙");
    symbols.push("▛");
    symbols.push("▜");
    symbols.push("▟");
    SymbolSet { full: "█", empty: "　", symbols }
}

/// ["◳", "◲", "◱", "◰"]
pub fn white_square() -> (r: SymbolSet)
    ensures
        r.full@ == "⊞"@,
        r.empty@ == "　"@,
        r.symbols@.len() == 4,
        r.symbols@[0]@ == "◳"@,
        r.symbols@[1]@ == "◲"@,
        r.symbols@[2]@ == "◱"@,
        r.symbols@[3]@ == "◰"@,
{
    let mut symbols: Vec<&'static str> = Vec::new();
    symbols.push("◳");
    symbols.push("◲");
    symbols.push("◱");
    symbols.push("◰");
    SymbolSet { full: "⊞", empty: "　", symbols }
}

/// ["◷", "◶", "◵", "◴"]
pub fn white_circle() -> (r: SymbolSet)
    ensures
        r.full@ == "⊕"@,
        r.empty@ == "　"@,
        r.symbols@.len() == 4,
        r.symbols@[0]@ == "◷"@,
        r.symbols@[1]@ == "◶"@,
        r.symbols@[2]@ == "◵"@,
        r.symbols@[3]@ == "◴"@,
{
    let mut symbols: Vec<&'static str> = Vec::new();
    symbols.push("◷");
    symbols.push("◶");
    symbols.push("◵");
    symbols.push("◴");
    SymbolSet { full: "⊕", empty: "　", symbols }
}

/// ["◑", "◒", "◐", "◓"]
pub fn black_circle() -> (r: SymbolSet)
    ensures
        r.full@ == "●"@,
        r.empty@ == "　"@,
        r.symbols@.len() == 4,
        r.symbols@[0]@ == "◑"@,
        r.symbols@[1]@ == "◒"@,
        r.symbols@[2]@ == "◐"@,
        r.symbols@[3]@ == "◓"@,
{
    let mut symbols: Vec<&'static str> = Vec::new();
    symbols.push("◑");
    symbols.push("◒");
    symbols.push("◐");
    symbols.push("◓");
    SymbolSet { full: "●", empty: "　", symbols }
}

/// ["🕛", "🕧", "🕐", "🕜", "🕑", ...]
pub fn clock() -> (r: SymbolSet)
    ensures
        r.full@ == "🕛"@,
        r.empty@ == "　"@,
        r.symbols@.len() == 24,
        r.symbols@[0]@ == "🕛"@,
        r.symbols@[1]@ == "🕧"@,
        r.symbols@[2]@ == "🕐"@,
        r.symbols@[3]@ == "🕜"@,
        r.symbols@[4]@ == "🕑"@,
        r.symbols@[5]@ == "🕝"@,
        r.symbols@[6]@ == "🕒"@,
        r.symbols@[7]@ == "🕞"@,
        r.symbols@[8]@ == "🕓"@,
        r.symbols@[9]@ == "🕟"@,
        r.symbols@[10]@ == "🕔"@,
        r.symbols@[11]@ == "🕠"@,
        r.symbols@[12]@ == "🕕"@,
        r.symbols@[13]@ == "🕡"@,
        r.symbols@[14]@ == "🕖"@,
        r.symbols@[15]@ == "🕢"@,
        r.symbols@[16]@ == "🕗"@,
        r.symbols@[17]@ == "🕣"@,
        r.symbols@[18]@ == "🕘"@,
        r.symbols@[19]@ == "🕤"@,
        r.symbols@[20]@ == "🕙"@,
        r.symbols@[21]@ == "🕥"@,
        r.symbols@[22]@ == "🕚"@,
        r.symbols@[23]@ == "🕦"@,
{
    let mut symbols: Vec<&'static str> = Vec::new();
    symbols.push("🕛");
    symbols.push("🕧");
    symbols.push("🕐");
    symbols.push("🕜");
    symbols.push("🕑");
    symbols.push("🕝");
    symbols.push("🕒");
    symbols.push("🕞");
    symbols.push("🕓");
    symbols.push("🕟");
    symbols.push("🕔");
    symbols.push("🕠");
    symbols.push("🕕");
    symbols.push("🕡");
    symbols.push("🕖");
    symbols.push("🕢");
    symbols.push("🕗");
    symbols.push("🕣");
    symbols.push("🕘");
    symbols.push("🕤");
    symbols.push("🕙");
    symbols.push("🕥");
    symbols.push("🕚");
    symbols.push("🕦");
    SymbolSet { full: "🕛", empty: "　", symbols }
}

/// ["⠈", "⠐", "⠠", "⠄", "⠂", "⠁"]
pub fn braille_one() -> (r: SymbolSet)
    ensures
        r.full@ == "⠿"@,
        r.empty@ == "　"@,
        r.symbols@.len() == 6,
        r.symbols@[0]@ == "⠈"@,
        r.symbols@[1]@ == "⠐"@,
        r.symbols@[2]@ == "⠠"@,
        r.symbols@[3]@ == "⠄"@,
        r.symbols@[4]@ == "⠂"@,
        r.symbols@[5]@ == "⠁"@,
{
    let mut symbols: Vec<&'static str> = Vec::new();
    symbols.push("⠈");
    symbols.push("⠐");
    symbols.push("⠠");
    symbols.push("⠄");
    symbols.push("⠂");
    symbols.push("⠁");
    SymbolSet { full: "⠿", empty: "　", symbols }
}

/// ["⠘", "⠰", "⠤", "⠆", "⠃", "⠉"]
pub fn braille_double() -> (r: SymbolSet)
    ensures
        r.full@ == "⠿"@,
        r.empty@ == "　"@,
        r.symbols@.len() == 6,
        r.symbols@[0]@ == "⠘"@,
        r.symbols@[1]@ == "⠰"@,
        r.symbols@[2]@ == "⠤"@,
        r.symbols@[3]@ == "⠆"@,
        r.symbols@[4]@ == "⠃"@,
        r.symbols@[5]@ == "⠉"@,
{
    let mut symbols: Vec<&'static str> = Vec::new();
    symbols.push("⠘");
    symbols.push("⠰");
    symbols.push("⠤");
    symbols.push("⠆");
    symbols.push("⠃");
    symbols.push("⠉");
    SymbolSet { full: "⠿", empty: "　", symbols }
}

/// The default symbol set: its dedicated glyphs and each of its
/// six frames.
pub open spec fn is_braille_six(s: SymbolSet) -> bool {
    &&& s.full@ == "⠿"@
    &&& s.empty@ == "　"@
    &&& s.symbols@.len() == 6
    &&& s.symbols@[0]@ == "⠷"@
    &&& s.symbols@[1]@ == "⠯"@
    &&& s.symbols@[2]@ == "⠟"@
    &&& s.symbols@[3]@ == "⠻"@
    &&& s.symbols@[4]@ == "⠽"@
    &&& s.symbols@[5]@ == "⠾"@
}

/// ["⠷", "⠯", "⠟", "⠻", "⠽", "⠾"]
pub fn braille_six() -> (r: SymbolSet)
    ensures
        is_braille_six(r),
{
    let mut symbols: Vec<&'static str> = Vec::new();
    symbols.push("⠷");
    symbols.push("⠯");
    symbols.push("⠟");
    symbols.push("⠻");
    symbols.push("⠽");
    symbols.push("⠾");
    SymbolSet { full: "⠿", empty: "　", symbols }
}

/// ["⠧", "⠏", "⠛", "⠹", "⠼", "⠶"]
pub fn braille_six_double() -> (r: SymbolSet)
    ensures
        r.full@ == "⠿"@,
        r.empty@ == "　"@,
        r.symbols@.len() == 6,
        r.symbols@[0]@ == "⠧"@,
        r.symbols@[1]@ == "⠏"@,
        r.symbols@[2]@ == "⠛"@,
        r.symbols@[3]@ == "⠹"@,
        r.symbols@[4]@ == "⠼"@,
        r.symbols@[5]@ == "⠶"@,
{
    let mut symbols: Vec<&'static str> = Vec::new();
    symbols.push("⠧");
    symbols.push("⠏");
    symbols.push("⠛");
    symbols.push("⠹");
    symbols.push("⠼");
    symbols.push("⠶");
    SymbolSet { full: "⠿", empty: "　", symbols }
}

/// ["⣷", "⣯", "⣟", "⡿", "⢿", "⣻", "⣽", "⣾"]
pub fn braille_eight() -> (r: SymbolSet)
    ensures
        r.full@ == "⣿"@,
        r.empty@ == "　"@,
        r.symbols@.len() == 8,
        r.symbols@[0]@ == "⣷"@,
        r.symbols@[1]@ == "⣯"@,
        r.symbols@[2]@ == "⣟"@,
        r.symbols@[3]@ == "⡿"@,
        r.symbols@[4]@ == "⢿"@,
        r.symbols@[5]@ == "⣻"@,
        r.symbols@[6]@ == "⣽"@,
        r.symbols@[7]@ == "⣾"@,
{
    let mut symbols: Vec<&'static str> = Vec::new();
    symbols.push("⣷");
    symbols.push("⣯");
    symbols.push("⣟");
    symbols.push("⡿");
    symbols.push("⢿");
    symbols.push("⣻");
    symbols.push("⣽");
    symbols.push("⣾");
    SymbolSet { full: "⣿", empty: "　", symbols }
}

/// ["⣧", "⣏", "⡟", "⠿", "⢻", "⣹", "⣼", "⣶"]
pub fn braille_eight_double() -> (r: SymbolSet)
    ensures
        r.full@ == "⣿"@,
        r.empty@ == "　"@,
        r.symbols@.len() == 8,
        r.symbols@[0]@ == "⣧"@,
        r.symbols@[1]@ == "⣏"@,
        r.symbols@[2]@ == "⡟"@,
        r.symbols@[3]@ == "⠿"@,
        r.symbols@[4]@ == "⢻"@,
        r.symbols@[5]@ == "⣹"@,
        r.symbols@[6]@ == "⣼"@,
        r.symbols@[7]@ == "⣶"@,
{
    let mut symbols: Vec<&'static str> = Vec::new();
    symbols.push("⣧");
    symbols.push("⣏");
    symbols.push("⡟");
    symbols.push("⠿");
    symbols.push("⢻");
    symbols.push("⣹");
    symbols.push("⣼");
    symbols.push("⣶");
    SymbolSet { full: "⣿", empty: "　", symbols }
}

/// [" ", "ᚐ", "ᚑ", "ᚒ", "ᚓ", "ᚔ"]
pub fn ogham_a() -> (r: SymbolSet)
    ensures
        r.full@ == "ᚔ"@,
        r.empty@ == "　"@,
        r.symbols@.len() == 6,
        r.symbols@[0]@ == " "@,
        r.symbols@[1]@ == "ᚐ"@,
        r.symbols@[2]@ == "ᚑ"@,
        r.symbols@[3]@ == "ᚒ"@,
        r.symbols@[4]@ == "ᚓ"@,
        r.symbols@[5]@ == "ᚔ"@,
{
    let mut symbols: Vec<&'static str> = Vec::new();
    symbols.push(" ");
    symbols.push("ᚐ");
    symbols.push("ᚑ");
    symbols.push("ᚒ");
    symbols.push("ᚓ");
    symbols.push("ᚔ");
    SymbolSet { full: "ᚔ", empty: "　", symbols }
}

/// [" ", "ᚁ", "ᚂ", "ᚃ", "ᚄ", "ᚅ"]
pub fn ogham_b() -> (r: SymbolSet)
    ensures
        r.full@ == "ᚅ"@,
        r.empty@ == "　"@,
        r.symbols@.len() == 6,
        r.symbols@[0]@ == " "@,
        r.symbols@[1]@ == "ᚁ"@,
        r.symbols@[2]@ == "ᚂ"@,
        r.symbols@[3]@ == "ᚃ"@,
        r.symbols@[4]@ == "ᚄ"@,
        r.symbols@[5]@ == "ᚅ"@,
{
    let mut symbols: Vec<&'static str> = Vec::new();
    symbols.push(" ");
    symbols.push("ᚁ");
    symbols.push("ᚂ");
    symbols.push("ᚃ");
    symbols.push("ᚄ");
    symbols.push("ᚅ");
    SymbolSet { full: "ᚅ", empty: "　", symbols }
}

/// [" ", "ᚆ", "ᚇ", "ᚈ", "ᚉ", "ᚊ"]
pub fn ogham_c() -> (r: SymbolSet)
    ensures
        r.full@ == "ᚊ"@,
        r.empty@ == "　"@,
        r.symbols@.len() == 6,
        r.symbols@[0]@ == " "@,
        r.symbols@[1]@ == "ᚆ"@,
        r.symbols@[2]@ == "ᚇ"@,
        r.symbols@[3]@ == "ᚈ"@,
        r.symbols@[4]@ == "ᚉ"@,
        r.symbols@[5]@ == "ᚊ"@,
{
    let mut symbols: Vec<&'static str> = Vec::new();
    symbols.push(" ");
    symbols.push("ᚆ");
    symbols.push("ᚇ");
    symbols.push("ᚈ");
    symbols.push("ᚉ");
    symbols.push("ᚊ");
    SymbolSet { full: "ᚊ", empty: "　", symbols }
}

/// ["⎛", "⎜", "⎝", "⎞", "⎟", "⎠"]
pub fn parenthesis() -> (r: SymbolSet)
    ensures
        r.full@ == "∫"@,
        r.empty@ == "　"@,
        r.symbols@.len() == 6,
        r.symbols@[0]@ == "⎛"@,
        r.symbols@[1]@ == "⎜"@,
        r.symbols@[2]@ == "⎝"@,
        r.symbols@[3]@ == "⎞"@,
        r.symbols@[4]@ == "⎟"@,
        r.symbols@[5]@ == "⎠"@,
{
    let mut symbols: Vec<&'static str> = Vec::new();
    symbols.push("⎛");
    symbols.push("⎜");
    symbols.push("⎝");
    symbols.push("⎞");
    symbols.push("⎟");
    symbols.push("⎠");
    SymbolSet { full: "∫", empty: "　", symbols }
}

/// ["ᔐ", "ᯇ", "ᔑ", "ᯇ"]
pub fn canadian() -> (r: SymbolSet)
    ensures
        r.full@ == "ᦟ"@,
        r.empty@ == "　"@,
        r.symbols@.len() == 4,
        r.symbols@[0]@ == "ᔐ"@,
        r.symbols@[1]@ == "ᯇ"@,
        r.symbols@[2]@ == "ᔑ"@,
        r.symbols@[3]@ == "ᯇ"@,
{
    let mut symbols: Vec<&'static str> = Vec::new();
    symbols.push("ᔐ");
    symbols.push("ᯇ");
    symbols.push("ᔑ");
    symbols.push("ᯇ");
    SymbolSet { full: "ᦟ", empty: "　", symbols }
}

} // verus!
