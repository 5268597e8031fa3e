//! Colour themes and the speed table.

use vstd::prelude::*;

verus! {

/// Foreground colours used by the themes.
#[derive(Clone, Copy, Debug, PartialEq, Eq, Structural)]
pub enum Color {
    Black,
    White,
    Green,
    DarkGreen,
    Blue,
    DarkBlue,
    Red,
    DarkRed,
    Cyan,
    Magenta,
    DarkMagenta,
}

/// The three colours of a stream: the newest glyph, the bright band right
/// behind it, and the rest of the tail.
#[derive(Clone, Copy, Debug, PartialEq, Eq, Structural)]
pub struct ColorScheme {
    pub head: Color,
    pub trail: Color,
    pub fade: Color,
}

/// Number of themes in the table.
pub const THEME_COUNT: usize = 4;

/// Slowest and fastest speed levels.
pub const MIN_SPEED: usize = 1;

pub const MAX_SPEED: usize = 10;

/// The theme table, by index.
pub open spec fn theme_table(index: int) -> ColorScheme {
    if index == 0 {
        ColorScheme { head: Color::White, trail: Color::Green, fade: Color::DarkGreen }
    } else if index == 1 {
        ColorScheme { head: Color::White, trail: Color::Blue, fade: Color::DarkBlue }
    } else if index == 2 {
        ColorScheme { head: Color::White, trail: Color::Red, fade: Color::DarkRed }
    } else {
        ColorScheme { head: Color::Cyan, trail: Color::Magenta, fade: Color::DarkMagenta }
    }
}

/// The display name of each theme; any index past the table is "Unknown".
pub open spec fn theme_label(index: int) -> Seq<char> {
    if index == 0 {
        "Classic Green"@
    } else if index == 1 {
        "Ocean Blue"@
    } else if index == 2 {
        "Crimson Red"@
    } else if index == 3 {
        "Cyberpunk"@
    } else {
        "Unknown"@
    }
}

/// Milliseconds between two animation ticks at each speed level.
pub open spec fn tick_millis(level: int) -> int {
    if level == 1 {
        100
    } else if level == 2 {
        88
    } else if level == 3 {
        76
    } else if level == 4 {
        64
    } else if level == 5 {
        52
    } else if level == 6 {
        40
    } else if level == 7 {
        33
    } else if level == 8 {
        28
    } else if level == 9 {
        24
    } else {
        20
    }
}

/// Looks a theme up in the table.
pub fn theme(index: usize) -> (scheme: ColorScheme)
    requires
        index < THEME_COUNT,
    ensures
        scheme == theme_table(index as int),
{
    if index == 0 {
        ColorScheme { head: Color::White, trail: Color::Green, fade: Color::DarkGreen }
    } else if index == 1 {
        ColorScheme { head: Color::White, trail: Color::Blue, fade: Color::DarkBlue }
    } else if index == 2 {
        ColorScheme { head: Color::White, trail: Color::Red, fade: Color::DarkRed }
    } else {
        ColorScheme { head: Color::Cyan, trail: Color::Magenta, fade: Color::DarkMagenta }
    }
}

/// The name under which a theme is shown in the menu.
pub fn theme_name(index: usize) -> (name: &'static str)
    ensures
        name@ == theme_label(index as int),
{
    if index == 0 {
        "Classic Green"
    } else if index == 1 {
        "Ocean Blue"
    } else if index == 2 {
        "Crimson Red"
    } else if index == 3 {
        "Cyberpunk"
    } else {
        "Unknown"
    }
}

/// The tick period of a speed level, which is also how long one poll for
/// input may wait.
pub fn tick_duration(level: usize) -> (millis: u64)
    requires
        MIN_SPEED <= level <= MAX_SPEED,
    ensures
        millis == tick_millis(level as int),
{
    if level == 1 {
        100
    } else if level == 2 {
        88
    } else if level == 3 {
        76
    } else if level == 4 {
        64
    } else if level == 5 {
        52
    } else if level == 6 {
        40
    } else if level == 7 {
        33
    } else if level == 8 {
        28
    } else if level == 9 {
        24
    } else {
        20
    }
}

/// A higher speed level never waits longer: the table decreases strictly
/// from 100 ms at the slowest level down to 20 ms at the fastest.
pub proof fn lemma_tick_millis_decreasing(slow: int, fast: int)
    requires
        MIN_SPEED <= slow < fast <= MAX_SPEED,
    ensures
        tick_millis(slow) > tick_millis(fast),
        tick_millis(MIN_SPEED as int) == 100,
        tick_millis(MAX_SPEED as int) == 20,
{
}

} // verus!
