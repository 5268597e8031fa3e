//! The words that the paused screen and the configuration menu show.

use crate::controller::Variant;
use vstd::prelude::*;

verus! {

/// The character of one decimal digit.
pub open spec fn digit_glyph(digit: int) -> char {
    if digit == 0 {
        '0'
    } else if digit == 1 {
        '1'
    } else if digit == 2 {
        '2'
    } else if digit == 3 {
        '3'
    } else if digit == 4 {
        '4'
    } else if digit == 5 {
        '5'
    } else if digit == 6 {
        '6'
    } else if digit == 7 {
        '7'
    } else if digit == 8 {
        '8'
    } else {
        '9'
    }
}

/// A number written in decimal, without leading zeros.
pub open spec fn decimal(number: nat) -> Seq<char>
    decreases number,
{
    if number < 10 {
        seq![digit_glyph(number as int)]
    } else {
        decimal(number / 10).push(digit_glyph((number % 10) as int))
    }
}

/// The line shown over the last frame while the animation is paused.
pub open spec fn paused_line(variant: Variant) -> Seq<char> {
    match variant {
        Variant::Multilingual => "Paused - Press SPACE to resume or 'q' to quit"@,
        Variant::Monolingual => "Paused - Press 'p' to resume or 'q' to quit"@,
    }
}

/// The configuration menu for a speed level, a theme name and the name of
/// the active character set. Only the multilingual variant has a line for
/// the character set.
pub open spec fn menu_lines(
    variant: Variant,
    speed_level: nat,
    theme: Seq<char>,
    language: Seq<char>,
) -> Seq<char> {
    let top = "Configuration Menu\n\nSpeed: "@ + decimal(speed_level)
        + " (use +/- to change)\nTheme: "@ + theme + " (use left/right arrows to change)\n"@;
    let middle = match variant {
        Variant::Multilingual => "Language: "@ + language + " (use up/down arrows to change)\n"@,
        Variant::Monolingual => Seq::<char>::empty(),
    };
    top + middle + "\nPress 'c' or 'Esc': Return to matrix"@
}

/// One decimal digit as text.
fn digit_text(digit: usize) -> (text: &'static str)
    requires
        digit < 10,
    ensures
        text@ == seq![digit_glyph(digit as int)],
{
    proof {
        reveal_strlit("0");
        reveal_strlit("1");
        reveal_strlit("2");
        reveal_strlit("3");
        reveal_strlit("4");
        reveal_strlit("5");
        reveal_strlit("6");
        reveal_strlit("7");
        reveal_strlit("8");
        reveal_strlit("9");
    }
    let text: &'static str = if digit == 0 {
        "0"
    } else if digit == 1 {
        "1"
    } else if digit == 2 {
        "2"
    } else if digit == 3 {
        "3"
    } else if digit == 4 {
        "4"
    } else if digit == 5 {
        "5"
    } else if digit == 6 {
        "6"
    } else if digit == 7 {
        "7"
    } else if digit == 8 {
        "8"
    } else {
        "9"
    };
    assert(text@ =~= seq![digit_glyph(digit as int)]);
    text
}

/// Writes a number in decimal.
pub fn decimal_text(number: usize) -> (text: String)
    ensures
        text@ == decimal(number as nat),
    decreases number,
{
    if number < 10 {
        String::from_str(digit_text(number))
    } else {
        let mut text: String = decimal_text(number / 10);
        text.append(digit_text(number % 10));
        assert(text@ =~= decimal(number as nat));
        text
    }
}

/// The line shown over the last frame while the animation is paused.
pub fn paused_text(variant: Variant) -> (text: &'static str)
    ensures
        text@ == paused_line(variant),
{
    match variant {
        Variant::Multilingual => "Paused - Press SPACE to resume or 'q' to quit",
        Variant::Monolingual => "Paused - Press 'p' to resume or 'q' to quit",
    }
}

/// The text of the configuration menu.
pub fn menu_text(variant: Variant, speed_level: usize, theme: &str, language: &str) -> (text: String)
    ensures
        text@ == menu_lines(variant, speed_level as nat, theme@, language@),
{
    let mut text: String = String::from_str("Configuration Menu\n\nSpeed: ");
    let level: String = decimal_text(speed_level);
    text.append(level.as_str());
    text.append(" (use +/- to change)\nTheme: ");
    text.append(theme);
    text.append(" (use left/right arrows to change)\n");
    let ghost top = text@;
    match variant {
        Variant::Multilingual => {
            text.append("Language: ");
            text.append(language);
            text.append(" (use up/down arrows to change)\n");
            assert(text@ =~= top + ("Language: "@ + language@
                + " (use up/down arrows to change)\n"@));
        },
        Variant::Monolingual => {
            assert(text@ =~= top + Seq::<char>::empty());
        },
    }
    text.append("\nPress 'c' or 'Esc': Return to matrix");
    text
}

} // verus!
