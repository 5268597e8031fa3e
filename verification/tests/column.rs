use digital_rain::charset::{CharSet, BLANK};
use digital_rain::column::{
    Cell, Column, Draw, Paint, BRIGHT_BAND, MAX_DIVISOR, MAX_X, MIN_HEIGHT, MIN_STREAM,
};
use digital_rain::theme::{theme, Color, ColorScheme};

fn cells_of(column: &Column) -> Vec<Cell> {
    (0..column.height()).map(|row| column.cell(row)).collect()
}

fn draw_of(glyph: char) -> Draw {
    Draw { glyph, stream_length: 7, speed_divisor: 2 }
}

fn scripted(seed: &mut u32, height: u16) -> Draw {
    *seed = seed.wrapping_mul(1664525).wrapping_add(1013904223);
    let glyph = (b'a' + ((*seed >> 8) % 26) as u8) as char;
    *seed = seed.wrapping_mul(1664525).wrapping_add(1013904223);
    let span = (height / 2) as u32 - 4;
    let stream_length = 5 + ((*seed >> 8) % span) as i32;
    *seed = seed.wrapping_mul(1664525).wrapping_add(1013904223);
    let speed_divisor = 1 + ((*seed >> 8) % 4) as i32;
    Draw { glyph, stream_length, speed_divisor }
}

#[test]
fn default_cell_is_empty() {
    let cell = Cell::default();
    assert_eq!(cell, Cell { glyph: ' ', color: Color::Black, lifetime: 0 });
    assert_eq!(cell.glyph, BLANK);
    assert!(!cell.is_lit());
    assert!(Cell { glyph: 'x', color: Color::White, lifetime: 1 }.is_lit());
}

#[test]
fn limits_of_a_column() {
    assert_eq!(MIN_HEIGHT, 10);
    assert_eq!(MIN_STREAM, 5);
    assert_eq!(MAX_DIVISOR, 4);
    assert_eq!(BRIGHT_BAND, 3);
    assert_eq!(MAX_X, 32767);
}

#[test]
fn fresh_column_is_dark_with_head_above_the_screen() {
    let column = Column::with(7, 20, 10, 3);
    assert_eq!(column.x(), 7);
    assert_eq!(column.height(), 20);
    assert_eq!(column.head(), -1);
    assert_eq!(column.stream_length(), 10);
    assert_eq!(column.speed_divisor(), 3);
    assert_eq!(column.tick_counter(), 0);
    for cell in cells_of(&column) {
        assert_eq!(cell, Cell::default());
    }
    assert!(column.draw().is_empty());
}

#[test]
fn new_column_draws_length_and_speed_in_range() {
    let mut lengths = std::collections::BTreeSet::new();
    let mut speeds = std::collections::BTreeSet::new();
    for x in 0..300u16 {
        let column = Column::new(x, 40);
        assert_eq!(column.x(), x);
        assert_eq!(column.height(), 40);
        assert_eq!(column.head(), -1);
        assert_eq!(column.tick_counter(), 0);
        assert!(5 <= column.stream_length() && column.stream_length() <= 20);
        assert!(1 <= column.speed_divisor() && column.speed_divisor() <= 4);
        assert!(cells_of(&column).iter().all(|cell| *cell == Cell::default()));
        lengths.insert(column.stream_length());
        speeds.insert(column.speed_divisor());
    }
    assert!(lengths.len() > 1);
    assert!(speeds.len() > 1);
}

#[test]
fn lowest_screen_leaves_one_stream_length() {
    for _ in 0..50 {
        let column = Column::new(0, 10);
        assert_eq!(column.stream_length(), 5);
        let next = Column::new(0, 11);
        assert_eq!(next.stream_length(), 5);
    }
    let column = Column::with(MAX_X, u16::MAX, 32767, 4);
    assert_eq!(column.height(), u16::MAX);
    assert_eq!(column.stream_length(), 32767);
}

#[test]
fn stream_of_ten_on_twenty_rows() {
    let colors = theme(0);
    let mut column = Column::with(0, 20, 10, 1);
    let next = Draw { glyph: 'z', stream_length: 6, speed_divisor: 3 };

    column.update_with(&colors, &Draw { glyph: 'a', ..next });
    assert_eq!(column.head(), 0);
    assert_eq!(column.cell(0), Cell { glyph: 'a', color: Color::White, lifetime: 10 });
    for row in 1..20 {
        assert_eq!(column.cell(row).lifetime, 0);
        assert_eq!(column.cell(row).glyph, BLANK);
    }

    for tick in 2..=10u8 {
        column.update_with(&colors, &Draw { glyph: (b'a' + tick - 1) as char, ..next });
    }
    assert_eq!(column.head(), 9);
    assert_eq!(column.cell(9), Cell { glyph: 'j', color: Color::White, lifetime: 10 });
    for row in 0..9u16 {
        let cell = column.cell(row);
        assert_eq!(cell.lifetime, 10 - (9 - row as i32));
        assert_eq!(cell.glyph, (b'a' + row as u8) as char);
        assert!(cell.is_lit());
    }
    assert_eq!(column.cell(0).lifetime, 1);
    assert_eq!(column.cell(8).color, Color::Green);
    assert_eq!(column.cell(7).color, Color::Green);
    assert_eq!(column.cell(6).color, Color::DarkGreen);
    assert_eq!(column.cell(0).color, Color::DarkGreen);
    for row in 10..20 {
        assert!(!column.cell(row).is_lit());
    }

    column.update_with(&colors, &Draw { glyph: 'k', ..next });
    assert_eq!(column.head(), 10);
    assert_eq!(column.cell(0).lifetime, 0);
    assert_eq!(column.cell(0).glyph, BLANK);
    assert_eq!(column.cell(1).lifetime, 1);

    for _ in 12..=30 {
        column.update_with(&colors, &Draw { glyph: 'x', ..next });
    }
    assert_eq!(column.head(), 29);
    assert_eq!(column.stream_length(), 10);
    assert_eq!(column.speed_divisor(), 1);
    for row in 0..20 {
        assert_eq!(column.cell(row).lifetime, 0);
        assert_eq!(column.cell(row).glyph, BLANK);
    }

    column.update_with(&colors, &Draw { glyph: 'x', ..next });
    assert_eq!(column.head(), -1);
    assert_eq!(column.stream_length(), 6);
    assert_eq!(column.speed_divisor(), 3);
    assert_eq!(column.tick_counter(), 0);
}

#[test]
fn divisor_of_four_moves_the_head_every_fourth_tick() {
    let colors = theme(1);
    let mut column = Column::with(2, 12, 5, 4);
    let draw = draw_of('m');
    for round in 0..6 {
        for waiting in 1..=3 {
            let before = cells_of(&column);
            let head = column.head();
            column.update_with(&colors, &draw);
            assert_eq!(column.head(), head);
            assert_eq!(column.tick_counter(), waiting);
            assert_eq!(cells_of(&column), before);
            assert_eq!(column.stream_length(), 5);
            assert_eq!(column.speed_divisor(), 4);
        }
        column.update_with(&colors, &draw);
        assert_eq!(column.head(), round);
        assert_eq!(column.tick_counter(), 0);
        assert_eq!(
            column.cell(round as u16),
            Cell { glyph: 'm', color: Color::White, lifetime: 5 }
        );
    }
}

#[test]
fn divisor_of_one_moves_the_head_every_tick() {
    let colors = theme(0);
    let mut column = Column::with(0, 10, 5, 1);
    for tick in 0..10 {
        column.update_with(&colors, &draw_of('q'));
        assert_eq!(column.head(), tick);
        assert_eq!(column.tick_counter(), 0);
    }
}

#[test]
fn aged_cells_take_trail_and_fade_colours() {
    let colors = ColorScheme { head: Color::Cyan, trail: Color::Magenta, fade: Color::DarkMagenta };
    let mut column = Column::with(0, 16, 8, 1);
    for _ in 0..6 {
        column.update_with(&colors, &draw_of('w'));
    }
    assert_eq!(column.head(), 5);
    let expected = [
        (3, Color::DarkMagenta),
        (4, Color::DarkMagenta),
        (5, Color::DarkMagenta),
        (6, Color::Magenta),
        (7, Color::Magenta),
        (8, Color::Cyan),
    ];
    for (row, (lifetime, color)) in expected.iter().enumerate() {
        let cell = column.cell(row as u16);
        assert_eq!(cell.lifetime, *lifetime);
        assert_eq!(cell.color, *color);
        assert_eq!(cell.glyph, 'w');
    }
    for row in 6..16 {
        assert_eq!(column.cell(row), Cell { glyph: BLANK, color: Color::DarkMagenta, lifetime: 0 });
    }
}

#[test]
fn theme_change_recolours_on_the_next_advancing_tick() {
    let mut column = Column::with(0, 10, 5, 2);
    let green = theme(0);
    let red = theme(2);
    column.update_with(&green, &draw_of('a'));
    column.update_with(&green, &draw_of('a'));
    assert_eq!(column.cell(0).color, Color::White);
    column.update_with(&red, &draw_of('b'));
    assert_eq!(column.cell(0).color, Color::White);
    column.update_with(&red, &draw_of('b'));
    assert_eq!(column.cell(0), Cell { glyph: 'a', color: Color::Red, lifetime: 4 });
    assert_eq!(column.cell(1), Cell { glyph: 'b', color: Color::White, lifetime: 5 });
    assert_eq!(column.cell(2).color, Color::DarkRed);
}

#[test]
fn tail_leaves_the_screen_before_the_stream_starts_over() {
    let colors = theme(0);
    let mut column = Column::with(0, 10, 5, 1);
    let draw = Draw { glyph: 'r', stream_length: 5, speed_divisor: 1 };
    for tick in 1..=15 {
        column.update_with(&colors, &draw);
        assert_eq!(column.head(), tick - 1);
    }
    assert_eq!(column.head(), 14);
    assert!(cells_of(&column).iter().all(|cell| cell.lifetime == 0 && cell.glyph == BLANK));
    column.update_with(&colors, &draw);
    assert_eq!(column.head(), -1);
    column.update_with(&colors, &draw);
    assert_eq!(column.head(), 0);
    assert_eq!(column.cell(0), Cell { glyph: 'r', color: Color::White, lifetime: 5 });
}

#[test]
fn reset_with_starts_a_new_stream_and_keeps_the_cells() {
    let colors = theme(0);
    let mut column = Column::with(4, 12, 6, 1);
    for _ in 0..4 {
        column.update_with(&colors, &draw_of('e'));
    }
    let before = cells_of(&column);
    column.reset_with(5, 4);
    assert_eq!(column.head(), -1);
    assert_eq!(column.stream_length(), 5);
    assert_eq!(column.speed_divisor(), 4);
    assert_eq!(column.tick_counter(), 0);
    assert_eq!(column.x(), 4);
    assert_eq!(cells_of(&column), before);
}

#[test]
fn reset_draws_length_and_speed_in_range() {
    let colors = theme(0);
    let mut column = Column::with(4, 30, 6, 2);
    column.update_with(&colors, &draw_of('e'));
    let mut lengths = std::collections::BTreeSet::new();
    let mut speeds = std::collections::BTreeSet::new();
    for _ in 0..300 {
        let before = cells_of(&column);
        column.reset();
        assert_eq!(column.head(), -1);
        assert_eq!(column.tick_counter(), 0);
        assert!(5 <= column.stream_length() && column.stream_length() <= 15);
        assert!(1 <= column.speed_divisor() && column.speed_divisor() <= 4);
        assert_eq!(cells_of(&column), before);
        lengths.insert(column.stream_length());
        speeds.insert(column.speed_divisor());
    }
    assert!(lengths.len() > 1);
    assert!(speeds.len() > 1);
}

#[test]
fn same_draws_give_the_same_cells() {
    let colors = theme(3);
    let mut first = Column::with(1, 24, 9, 2);
    let mut second = Column::with(1, 24, 9, 2);
    let mut seed_first: u32 = 2024;
    let mut seed_second: u32 = 2024;
    for _ in 0..500 {
        let draw = scripted(&mut seed_first, 24);
        let again = scripted(&mut seed_second, 24);
        assert_eq!(draw, again);
        first.update_with(&colors, &draw);
        second.update_with(&colors, &again);
        assert_eq!(cells_of(&first), cells_of(&second));
        assert_eq!(first.head(), second.head());
        assert_eq!(first.stream_length(), second.stream_length());
        assert_eq!(first.speed_divisor(), second.speed_divisor());
        assert_eq!(first.tick_counter(), second.tick_counter());
        assert_eq!(first.draw(), second.draw());
    }
}

#[test]
fn scripted_run_matches_its_golden_cells() {
    let colors = theme(0);
    let mut column = Column::with(0, 10, 5, 2);
    let glyphs = ['a', 'b', 'c', 'd', 'e', 'f'];
    for glyph in glyphs {
        column.update_with(&colors, &Draw { glyph, stream_length: 5, speed_divisor: 1 });
    }
    assert_eq!(column.head(), 2);
    assert_eq!(column.tick_counter(), 0);
    let lit = [
        Cell { glyph: 'b', color: Color::Green, lifetime: 3 },
        Cell { glyph: 'd', color: Color::Green, lifetime: 4 },
        Cell { glyph: 'f', color: Color::White, lifetime: 5 },
    ];
    let cells = cells_of(&column);
    assert_eq!(&cells[0..3], &lit);
    for cell in &cells[3..] {
        assert_eq!(*cell, Cell { glyph: BLANK, color: Color::DarkGreen, lifetime: 0 });
    }
}

#[test]
fn blank_cells_are_the_cells_with_no_lifetime_left() {
    let colors = theme(0);
    let mut column = Column::with(0, 14, 6, 1);
    let mut seed: u32 = 99;
    for _ in 0..600 {
        let draw = scripted(&mut seed, 14);
        column.update_with(&colors, &draw);
        for cell in cells_of(&column) {
            assert!(cell.lifetime >= 0);
            assert_eq!(cell.lifetime == 0, cell.glyph == BLANK);
        }
    }
}

#[test]
fn random_updates_keep_every_cell_consistent() {
    let set = CharSet::english();
    let colors = theme(2);
    let mut column = Column::new(5, 18);
    let mut entered = false;
    for _ in 0..2000 {
        column.update(&colors, &set);
        assert_eq!(column.height(), 18);
        assert_eq!(column.x(), 5);
        assert!(5 <= column.stream_length() && column.stream_length() <= 9);
        assert!(1 <= column.speed_divisor() && column.speed_divisor() <= 4);
        assert!(0 <= column.tick_counter() && column.tick_counter() < column.speed_divisor());
        assert!(-1 <= column.head());
        assert!(column.head() < 18 + column.stream_length());
        for cell in cells_of(&column) {
            assert!(cell.lifetime >= 0);
            assert_eq!(cell.lifetime == 0, cell.glyph == BLANK);
            if cell.is_lit() {
                assert!(cell.glyph.is_ascii_graphic());
            }
        }
        if column.head() >= 0 && column.head() < 18 {
            entered = true;
            let head = column.cell(column.head() as u16);
            assert_eq!(head.lifetime, column.stream_length());
            assert_eq!(head.color, Color::White);
        }
    }
    assert!(entered);
}

#[test]
fn random_updates_never_move_the_head_up_but_to_start_over() {
    let set = CharSet::simplified_chinese();
    let colors = theme(1);
    let mut column = Column::new(0, 12);
    let mut restarts = 0;
    for _ in 0..3000 {
        let head = column.head();
        let length = column.stream_length();
        let waiting = column.tick_counter() + 1 < column.speed_divisor();
        column.update(&colors, &set);
        if waiting {
            assert_eq!(column.head(), head);
        } else if head + 1 >= 12 + length {
            assert_eq!(column.head(), -1);
            restarts += 1;
        } else {
            assert_eq!(column.head(), head + 1);
        }
        if column.head() < head {
            assert_eq!(column.head(), -1);
            assert!(head + 1 >= 12 + length);
        }
    }
    assert!(restarts > 0);
}

#[test]
fn random_update_draws_more_than_one_glyph() {
    let set = CharSet::english();
    let colors = theme(0);
    let mut column = Column::with(0, 40, 20, 1);
    for _ in 0..40 {
        column.update(&colors, &set);
    }
    let glyphs: std::collections::BTreeSet<char> =
        cells_of(&column).iter().filter(|cell| cell.is_lit()).map(|cell| cell.glyph).collect();
    assert!(glyphs.len() > 1);
}

#[test]
fn draw_paints_the_lit_cells_top_to_bottom() {
    let colors = theme(0);
    let mut column = Column::with(6, 12, 5, 1);
    let glyphs = ['a', 'b', 'c', 'd', 'e', 'f', 'g'];
    for glyph in glyphs {
        column.update_with(&colors, &Draw { glyph, stream_length: 5, speed_divisor: 1 });
    }
    assert_eq!(column.head(), 6);
    let paints = column.draw();
    assert_eq!(
        paints,
        vec![
            Paint { x: 12, y: 2, glyph: 'c', color: Color::DarkGreen },
            Paint { x: 12, y: 3, glyph: 'd', color: Color::DarkGreen },
            Paint { x: 12, y: 4, glyph: 'e', color: Color::Green },
            Paint { x: 12, y: 5, glyph: 'f', color: Color::Green },
            Paint { x: 12, y: 6, glyph: 'g', color: Color::White },
        ]
    );
}

#[test]
fn draw_of_the_rightmost_column() {
    let colors = theme(0);
    let mut column = Column::with(MAX_X, 10, 5, 1);
    column.update_with(&colors, &draw_of('k'));
    assert_eq!(column.draw(), vec![Paint { x: 65534, y: 0, glyph: 'k', color: Color::White }]);
}

#[test]
fn lifetimes_fall_by_one_from_row_to_row_behind_the_head() {
    let colors = theme(0);
    let mut column = Column::with(0, 30, 12, 3);
    let mut seed: u32 = 7;
    for _ in 0..1500 {
        let draw = scripted(&mut seed, 30);
        column.update_with(&colors, &draw);
        let head = column.head();
        let length = column.stream_length();
        for row in 0..30i32 {
            let expected = if row <= head && head - row < length { length - (head - row) } else { 0 };
            assert_eq!(column.cell(row as u16).lifetime, expected);
        }
    }
}

#[test]
fn random_update_restarts_with_length_and_speed_in_range() {
    let set = CharSet::english();
    let colors = theme(0);
    let mut column = Column::with(0, 40, 20, 1);
    let mut lengths = std::collections::BTreeSet::new();
    let mut speeds = std::collections::BTreeSet::new();
    for _ in 0..40000 {
        let head = column.head();
        column.update(&colors, &set);
        if column.head() < head {
            assert_eq!(column.head(), -1);
            assert_eq!(column.tick_counter(), 0);
            assert!(5 <= column.stream_length() && column.stream_length() <= 20);
            assert!(1 <= column.speed_divisor() && column.speed_divisor() <= 4);
            lengths.insert(column.stream_length());
            speeds.insert(column.speed_divisor());
        }
    }
    assert!(lengths.len() > 1);
    assert!(speeds.len() > 1);
}
