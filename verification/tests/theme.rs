use digital_rain::theme::{
    theme, theme_name, tick_duration, Color, ColorScheme, MAX_SPEED, MIN_SPEED, THEME_COUNT,
};

#[test]
fn theme_table_has_four_schemes() {
    assert_eq!(THEME_COUNT, 4);
    assert_eq!(
        theme(0),
        ColorScheme { head: Color::White, trail: Color::Green, fade: Color::DarkGreen }
    );
    assert_eq!(
        theme(1),
        ColorScheme { head: Color::White, trail: Color::Blue, fade: Color::DarkBlue }
    );
    assert_eq!(
        theme(2),
        ColorScheme { head: Color::White, trail: Color::Red, fade: Color::DarkRed }
    );
    assert_eq!(
        theme(3),
        ColorScheme { head: Color::Cyan, trail: Color::Magenta, fade: Color::DarkMagenta }
    );
}

#[test]
fn theme_names() {
    assert_eq!(theme_name(0), "Classic Green");
    assert_eq!(theme_name(1), "Ocean Blue");
    assert_eq!(theme_name(2), "Crimson Red");
    assert_eq!(theme_name(3), "Cyberpunk");
    assert_eq!(theme_name(4), "Unknown");
    assert_eq!(theme_name(usize::MAX), "Unknown");
}

#[test]
fn tick_durations_by_level() {
    let expected: [u64; 10] = [100, 88, 76, 64, 52, 40, 33, 28, 24, 20];
    for level in MIN_SPEED..=MAX_SPEED {
        assert_eq!(tick_duration(level), expected[level - 1]);
    }
}

#[test]
fn tick_durations_fall_as_the_level_rises() {
    assert_eq!(tick_duration(MIN_SPEED), 100);
    assert_eq!(tick_duration(MAX_SPEED), 20);
    for level in MIN_SPEED..MAX_SPEED {
        assert!(tick_duration(level) > tick_duration(level + 1));
    }
}
