//! One vertical stream of glyphs and how it changes from tick to tick.

use crate::charset::{CharSet, BLANK};
use crate::random::random_in;
use crate::theme::{Color, ColorScheme};
use vstd::prelude::*;

verus! {

/// The lowest screen that a column can be made for: below it no stream
/// length exists, since a stream is at least `MIN_STREAM` rows and at most
/// half the height.
pub const MIN_HEIGHT: u16 = 10;

/// The rightmost column: each column is two terminal columns wide, and a
/// terminal column is a `u16`.
pub const MAX_X: u16 = 32767;

/// The shortest stream.
pub const MIN_STREAM: i32 = 5;

/// The slowest column moves its head once in this many ticks.
pub const MAX_DIVISOR: i32 = 4;

/// How many rows behind the head are painted in the bright trail colour.
pub const BRIGHT_BAND: i32 = 3;

/// One character slot of a column.
#[derive(Clone, Copy, Debug, PartialEq, Eq, Structural)]
pub struct Cell {
    /// The glyph shown, `BLANK` for an empty cell.
    pub glyph: char,
    /// The colour that the glyph is painted in.
    pub color: Color,
    /// How many more advancing ticks the glyph stays; 0 for an empty cell.
    pub lifetime: i32,
}

/// One glyph to paint, at a terminal position.
#[derive(Clone, Copy, Debug, PartialEq, Eq, Structural)]
pub struct Paint {
    pub x: u16,
    pub y: u16,
    pub glyph: char,
    pub color: Color,
}

/// What chance decides in one tick of a column: the glyph for the head, and
/// the length and speed of the next stream in case this one has run out.
#[derive(Clone, Copy, Debug, PartialEq, Eq, Structural)]
pub struct Draw {
    pub glyph: char,
    pub stream_length: i32,
    pub speed_divisor: i32,
}

/// Whether a stream may be `length` rows long on a screen of `height` rows.
pub open spec fn stream_fits(length: int, height: int) -> bool {
    MIN_STREAM <= length <= height / 2
}

/// Whether a column may wait `divisor` ticks for each move of its head.
pub open spec fn divisor_fits(divisor: int) -> bool {
    1 <= divisor <= MAX_DIVISOR
}

impl Cell {
    /// A cell is empty exactly when its lifetime is 0, and a lifetime is
    /// never negative.
    pub open spec fn wf(self) -> bool {
        &&& self.lifetime >= 0
        &&& self.lifetime == 0 <==> self.glyph == BLANK
    }

    /// The empty cell.
    pub open spec fn empty() -> Cell {
        Cell { glyph: BLANK, color: Color::Black, lifetime: 0 }
    }

    /// A cell that the head has just reached.
    pub open spec fn head(glyph: char, colors: ColorScheme, stream_length: int) -> Cell {
        Cell { glyph, color: colors.head, lifetime: stream_length as i32 }
    }

    /// The cell one advancing tick later, in a stream of `stream_length`
    /// rows: a lit cell loses one tick of lifetime and goes blank when none
    /// is left. Its colour is the trail colour while more than
    /// `stream_length - BRIGHT_BAND` ticks are left, the fade colour after
    /// that and for an empty cell.
    pub open spec fn aged(self, colors: ColorScheme, stream_length: int) -> Cell {
        let lifetime = if self.lifetime > 0 {
            self.lifetime - 1
        } else {
            self.lifetime as int
        };
        Cell {
            glyph: if self.lifetime == 1 {
                BLANK
            } else {
                self.glyph
            },
            color: if lifetime > stream_length - BRIGHT_BAND {
                colors.trail
            } else {
                colors.fade
            },
            lifetime: lifetime as i32,
        }
    }

    /// Whether the cell shows a glyph.
    pub fn is_lit(&self) -> (lit: bool)
        ensures
            lit == (self.lifetime > 0),
    {
        self.lifetime > 0
    }
}

impl Default for Cell {
    /// The empty cell.
    fn default() -> (cell: Cell)
        ensures
            cell == Cell::empty(),
    {
        Cell { glyph: BLANK, color: Color::Black, lifetime: 0 }
    }
}

impl Draw {
    /// Whether the draw can be used on a screen of `height` rows: the glyph
    /// is not blank, and length and speed are in their ranges.
    pub open spec fn fits(self, height: int) -> bool {
        &&& self.glyph != BLANK
        &&& stream_fits(self.stream_length as int, height)
        &&& divisor_fits(self.speed_divisor as int)
    }
}

/// A column as plain numbers and a sequence of cells, one for each row.
pub struct ColumnView {
    pub x: int,
    pub cells: Seq<Cell>,
    pub head: int,
    pub stream_length: int,
    pub speed_divisor: int,
    pub tick_counter: int,
}

impl ColumnView {
    /// The number of rows.
    pub open spec fn height(self) -> int {
        self.cells.len() as int
    }

    /// Whether in every cell the glyph is blank exactly when the lifetime
    /// is 0.
    pub open spec fn cells_consistent(self) -> bool {
        forall|row: int| 0 <= row < self.height() ==> (#[trigger] self.cells[row]).wf()
    }

    /// What holds of every column at all times.
    pub open spec fn wf(self) -> bool {
        &&& 0 <= self.x <= MAX_X
        &&& MIN_HEIGHT <= self.height() <= u16::MAX
        &&& -1 <= self.head < self.height() + self.stream_length
        &&& stream_fits(self.stream_length, self.height())
        &&& divisor_fits(self.speed_divisor)
        &&& 0 <= self.tick_counter < self.speed_divisor
        &&& self.cells_consistent()
    }

    /// A column before its first tick: every cell empty, the head one row
    /// above the screen.
    pub open spec fn fresh(x: int, height: int, stream_length: int, speed_divisor: int) -> ColumnView {
        ColumnView {
            x,
            cells: Seq::new(height as nat, |row: int| Cell::empty()),
            head: -1,
            stream_length,
            speed_divisor,
            tick_counter: 0,
        }
    }

    /// Whether the next tick only counts and leaves the head where it is.
    pub open spec fn throttled(self) -> bool {
        self.tick_counter + 1 < self.speed_divisor
    }

    /// Whether the next tick moves the head past the last row of its tail,
    /// so that the stream starts over.
    pub open spec fn runs_out(self) -> bool {
        !self.throttled() && self.head + 1 >= self.height() + self.stream_length
    }

    /// The column with a new stream about to start: the cells stay.
    pub open spec fn restarted(self, stream_length: int, speed_divisor: int) -> ColumnView {
        ColumnView { head: -1, stream_length, speed_divisor, tick_counter: 0, ..self }
    }

    /// The cells after an advancing tick that takes the head to row `head`
    /// and puts `glyph` there, if that row is on the screen.
    pub open spec fn advanced_cells(self, colors: ColorScheme, head: int, glyph: char) -> Seq<Cell> {
        Seq::new(
            self.cells.len(),
            |row: int|
                if row == head {
                    Cell::head(glyph, colors, self.stream_length)
                } else {
                    self.cells[row].aged(colors, self.stream_length)
                },
        )
    }

    /// The column one tick later. A throttled tick only counts. Any other
    /// tick moves the head down one row, ages every cell, lights the cell
    /// under the head, and starts a new stream with the drawn length and
    /// speed once the head is `stream_length` rows below the screen.
    pub open spec fn step(self, colors: ColorScheme, draw: Draw) -> ColumnView {
        if self.throttled() {
            ColumnView { tick_counter: self.tick_counter + 1, ..self }
        } else {
            let moved = ColumnView {
                cells: self.advanced_cells(colors, self.head + 1, draw.glyph),
                head: self.head + 1,
                tick_counter: 0,
                ..self
            };
            if self.runs_out() {
                moved.restarted(draw.stream_length as int, draw.speed_divisor as int)
            } else {
                moved
            }
        }
    }

    /// The column after one tick for each draw of `draws`, first to last.
    pub open spec fn replay(self, colors: ColorScheme, draws: Seq<Draw>) -> ColumnView
        decreases draws.len(),
    {
        if draws.len() == 0 {
            self
        } else {
            self.replay(colors, draws.drop_last()).step(colors, draws.last())
        }
    }

    /// Whether `next` is what one tick can make of this column when the
    /// glyph is drawn from `glyphs`.
    pub open spec fn steps_to(self, colors: ColorScheme, glyphs: Seq<char>, next: ColumnView) -> bool {
        exists|draw: Draw|
            #![trigger self.step(colors, draw)]
            draw.fits(self.height()) && glyphs.contains(draw.glyph) && next == self.step(
                colors,
                draw,
            )
    }

    /// The lifetime of the cell in `row` of a stream that has run
    /// undisturbed: the row under the head has the whole stream length
    /// left, each row above it one tick less, down to 0; rows that the head
    /// has not reached have none.
    pub open spec fn lifetime_at(self, row: int) -> int {
        if 0 <= row <= self.head && self.head - row < self.stream_length {
            self.stream_length - (self.head - row)
        } else {
            0
        }
    }

    /// Whether every cell has the lifetime of an undisturbed stream.
    pub open spec fn in_formation(self) -> bool {
        forall|row: int|
            0 <= row < self.height() ==> (#[trigger] self.cells[row]).lifetime == self.lifetime_at(
                row,
            )
    }

    /// What to paint for the cell in `row`.
    pub open spec fn paint_at(self, row: int) -> Paint {
        Paint {
            x: (2 * self.x) as u16,
            y: row as u16,
            glyph: self.cells[row].glyph,
            color: self.cells[row].color,
        }
    }

    /// What to paint for the first `rows` rows: the lit cells, top to
    /// bottom. Empty cells are passed over.
    pub open spec fn painted(self, rows: int) -> Seq<Paint>
        decreases rows,
    {
        if rows <= 0 {
            Seq::empty()
        } else if self.cells[rows - 1].lifetime > 0 {
            self.painted(rows - 1).push(self.paint_at(rows - 1))
        } else {
            self.painted(rows - 1)
        }
    }
}

/// One vertical stream. It is made once, for a screen of a given height,
/// and from there on changes only by ticks.
pub struct Column {
    x: u16,
    cells: Vec<Cell>,
    head: i32,
    len: i32,
    speed: i32,
    counter: i32,
}

impl View for Column {
    type V = ColumnView;

    closed spec fn view(&self) -> ColumnView {
        ColumnView {
            x: self.x as int,
            cells: self.cells@,
            head: self.head as int,
            stream_length: self.len as int,
            speed_divisor: self.speed as int,
            tick_counter: self.counter as int,
        }
    }
}

/// Draws a stream length for a screen of `height` rows.
fn random_stream_length(height: usize) -> (length: i32)
    requires
        MIN_HEIGHT <= height <= u16::MAX,
    ensures
        stream_fits(length as int, height as int),
{
    random_in(MIN_STREAM as usize, height / 2) as i32
}

/// Draws a speed divisor.
fn random_speed_divisor() -> (divisor: i32)
    ensures
        divisor_fits(divisor as int),
{
    random_in(1, MAX_DIVISOR as usize) as i32
}

impl Column {
    /// Every column is well formed at all times.
    #[verifier::type_invariant]
    pub open spec fn well_formed(&self) -> bool {
        self@.wf()
    }

    /// A column at horizontal position `x` for a screen of `height` rows,
    /// with a stream length and a speed drawn at random.
    pub fn new(x: u16, height: u16) -> (column: Column)
        requires
            x <= MAX_X,
            height >= MIN_HEIGHT,
        ensures
            column@.wf(),
            column@ == ColumnView::fresh(
                x as int,
                height as int,
                column@.stream_length,
                column@.speed_divisor,
            ),
    {
        let stream_length: i32 = random_stream_length(height as usize);
        let speed_divisor: i32 = random_speed_divisor();
        Column::with(x, height, stream_length, speed_divisor)
    }

    /// A column at horizontal position `x` for a screen of `height` rows,
    /// with the given stream length and speed.
    pub fn with(x: u16, height: u16, stream_length: i32, speed_divisor: i32) -> (column: Column)
        requires
            x <= MAX_X,
            height >= MIN_HEIGHT,
            stream_fits(stream_length as int, height as int),
            divisor_fits(speed_divisor as int),
        ensures
            column@.wf(),
            column@ == ColumnView::fresh(
                x as int,
                height as int,
                stream_length as int,
                speed_divisor as int,
            ),
    {
        let mut cells: Vec<Cell> = Vec::new();
        let mut row: u16 = 0;
        while row < height
            invariant
                row <= height,
                cells@ == Seq::new(row as nat, |r: int| Cell::empty()),
            decreases height - row,
        {
            cells.push(Cell::default());
            row = row + 1;
        }
        Column { x, cells, head: -1, len: stream_length, speed: speed_divisor, counter: 0 }
    }

    /// The horizontal position, in columns of the animation.
    pub fn x(&self) -> (x: u16)
        ensures
            x == self@.x,
            x <= MAX_X,
    {
        proof {
            use_type_invariant(self);
        }
        self.x
    }

    /// The number of rows.
    pub fn height(&self) -> (height: u16)
        ensures
            height == self@.height(),
            height >= MIN_HEIGHT,
    {
        proof {
            use_type_invariant(self);
        }
        self.cells.len() as u16
    }

    /// The row of the newest glyph; -1 before the stream enters the screen,
    /// and past the last row while its tail leaves.
    pub fn head(&self) -> (head: i32)
        ensures
            head == self@.head,
            -1 <= head < self@.height() + self@.stream_length,
    {
        proof {
            use_type_invariant(self);
        }
        self.head
    }

    /// How many rows behind the head stay lit.
    pub fn stream_length(&self) -> (length: i32)
        ensures
            length == self@.stream_length,
            stream_fits(length as int, self@.height()),
    {
        proof {
            use_type_invariant(self);
        }
        self.len
    }

    /// How many ticks the column takes for each move of its head.
    pub fn speed_divisor(&self) -> (divisor: i32)
        ensures
            divisor == self@.speed_divisor,
            divisor_fits(divisor as int),
    {
        proof {
            use_type_invariant(self);
        }
        self.speed
    }

    /// How many ticks have passed since the head last moved.
    pub fn tick_counter(&self) -> (count: i32)
        ensures
            count == self@.tick_counter,
            0 <= count < self@.speed_divisor,
    {
        proof {
            use_type_invariant(self);
        }
        self.counter
    }

    /// The cell in `row`.
    pub fn cell(&self, row: u16) -> (cell: Cell)
        requires
            row < self@.height(),
        ensures
            cell == self@.cells[row as int],
            cell.lifetime >= 0,
            cell.lifetime == 0 <==> cell.glyph == BLANK,
    {
        proof {
            use_type_invariant(self);
        }
        self.cells[row as usize]
    }

    /// Starts a new stream of the given length and speed above the screen.
    /// The cells stay as they are.
    pub fn reset_with(&mut self, stream_length: i32, speed_divisor: i32)
        requires
            stream_fits(stream_length as int, old(self)@.height()),
            divisor_fits(speed_divisor as int),
        ensures
            final(self)@ == old(self)@.restarted(stream_length as int, speed_divisor as int),
    {
        proof {
            use_type_invariant(&*self);
        }
        self.counter = 0;
        self.head = -1;
        self.len = stream_length;
        self.speed = speed_divisor;
    }

    /// Starts a new stream above the screen, with a length and a speed
    /// drawn at random. The cells stay as they are.
    pub fn reset(&mut self)
        ensures
            final(self)@ == old(self)@.restarted(
                final(self)@.stream_length,
                final(self)@.speed_divisor,
            ),
            stream_fits(final(self)@.stream_length, final(self)@.height()),
            divisor_fits(final(self)@.speed_divisor),
    {
        proof {
            use_type_invariant(&*self);
        }
        let stream_length: i32 = random_stream_length(self.cells.len());
        let speed_divisor: i32 = random_speed_divisor();
        self.reset_with(stream_length, speed_divisor);
    }

    /// The cells after an advancing tick that takes the head to row `head`
    /// and puts `glyph` there, if that row is on the screen.
    fn advanced(&self, colors: &ColorScheme, head: i32, glyph: char) -> (cells: Vec<Cell>)
        requires
            head == self@.head + 1,
        ensures
            cells@ == self@.advanced_cells(*colors, head as int, glyph),
    {
        proof {
            use_type_invariant(self);
        }
        let mut cells: Vec<Cell> = Vec::new();
        let mut row: usize = 0;
        while row < self.cells.len()
            invariant
                self@.wf(),
                row <= self.cells.len(),
                cells@ == self@.advanced_cells(*colors, head as int, glyph).take(row as int),
            decreases self.cells.len() - row,
        {
            let cell: Cell = self.cells[row];
            let lifetime: i32 = if cell.lifetime > 0 {
                cell.lifetime - 1
            } else {
                cell.lifetime
            };
            let next: Cell = if head >= 0 && row == head as usize {
                Cell { glyph, color: colors.head, lifetime: self.len }
            } else {
                Cell {
                    glyph: if cell.lifetime == 1 {
                        BLANK
                    } else {
                        cell.glyph
                    },
                    color: if lifetime > self.len - BRIGHT_BAND {
                        colors.trail
                    } else {
                        colors.fade
                    },
                    lifetime,
                }
            };
            cells.push(next);
            row = row + 1;
            assert(cells@ =~= self@.advanced_cells(*colors, head as int, glyph).take(row as int));
        }
        assert(cells@ =~= self@.advanced_cells(*colors, head as int, glyph));
        cells
    }

    /// Advances the column by one tick, with what chance would decide given
    /// in `draw`.
    pub fn update_with(&mut self, colors: &ColorScheme, draw: &Draw)
        requires
            draw.fits(old(self)@.height()),
        ensures
            final(self)@ == old(self)@.step(*colors, *draw),
            final(self)@.wf(),
    {
        proof {
            use_type_invariant(&*self);
            lemma_step_keeps_wf(self@, *colors, *draw);
        }
        if self.counter + 1 < self.speed {
            self.counter = self.counter + 1;
            return ;
        }
        let head: i32 = self.head + 1;
        let cells: Vec<Cell> = self.advanced(colors, head, draw.glyph);
        self.cells = cells;
        self.counter = 0;
        if head >= self.cells.len() as i32 + self.len {
            self.reset_with(draw.stream_length, draw.speed_divisor);
        } else {
            self.head = head;
        }
    }

    /// Advances the column by one tick. The glyph for the head is drawn at
    /// random from `glyphs` when the head comes to a row of the screen, and
    /// the length and speed of the next stream are drawn at random when
    /// this one has run out; nothing is drawn that the tick does not use.
    pub fn update(&mut self, colors: &ColorScheme, glyphs: &CharSet)
        ensures
            old(self)@.steps_to(*colors, glyphs@.glyphs, final(self)@),
            final(self)@.wf(),
    {
        proof {
            use_type_invariant(&*self);
            use_type_invariant(glyphs);
        }
        let height: usize = self.cells.len();
        let advancing: bool = self.counter + 1 >= self.speed;
        let head: i32 = self.head + 1;
        let on_screen: bool = advancing && 0 <= head && head < height as i32;
        let runs_out: bool = advancing && head >= height as i32 + self.len;
        let draw = Draw {
            glyph: if on_screen {
                glyphs.random_glyph()
            } else {
                glyphs.glyph(0)
            },
            stream_length: if runs_out {
                random_stream_length(height)
            } else {
                MIN_STREAM
            },
            speed_divisor: if runs_out {
                random_speed_divisor()
            } else {
                1
            },
        };
        assert(glyphs@.glyphs.contains(draw.glyph));
        self.update_with(colors, &draw);
        proof {
            lemma_steps_to(old(self)@, *colors, glyphs@.glyphs, draw, self@);
        }
    }

    /// What to paint for this column: one glyph for each lit cell, top to
    /// bottom, two terminal columns for each column of the animation.
    pub fn draw(&self) -> (paints: Vec<Paint>)
        ensures
            paints@ == self@.painted(self@.height()),
    {
        proof {
            use_type_invariant(self);
        }
        let mut paints: Vec<Paint> = Vec::new();
        let mut row: usize = 0;
        while row < self.cells.len()
            invariant
                self@.wf(),
                row <= self.cells.len(),
                paints@ == self@.painted(row as int),
            decreases self.cells.len() - row,
        {
            let cell: Cell = self.cells[row];
            if cell.lifetime > 0 {
                paints.push(
                    Paint { x: self.x * 2, y: row as u16, glyph: cell.glyph, color: cell.color },
                );
            }
            row = row + 1;
        }
        paints
    }
}

/// A tick with a fitting draw whose glyph is one of `glyphs` is a tick that
/// chance can make.
proof fn lemma_steps_to(
    column: ColumnView,
    colors: ColorScheme,
    glyphs: Seq<char>,
    draw: Draw,
    next: ColumnView,
)
    requires
        draw.fits(column.height()),
        glyphs.contains(draw.glyph),
        next == column.step(colors, draw),
    ensures
        column.steps_to(colors, glyphs, next),
{
}

/// One tick keeps a column well formed: in every cell the glyph is blank
/// exactly when the lifetime is 0, and head, length, speed and counter stay
/// in their ranges.
pub proof fn lemma_step_keeps_wf(column: ColumnView, colors: ColorScheme, draw: Draw)
    requires
        column.wf(),
        draw.fits(column.height()),
    ensures
        column.step(colors, draw).wf(),
        column.step(colors, draw).height() == column.height(),
        column.step(colors, draw).x == column.x,
{
    let next = column.step(colors, draw);
    if !column.throttled() {
        assert forall|row: int| 0 <= row < next.height() implies (#[trigger] next.cells[row]).wf() by {
            assert(column.cells[row].wf());
        }
    }
}

/// Any number of ticks keeps a column well formed and on its place.
pub proof fn lemma_replay_keeps_wf(column: ColumnView, colors: ColorScheme, draws: Seq<Draw>)
    requires
        column.wf(),
        forall|i: int| 0 <= i < draws.len() ==> (#[trigger] draws[i]).fits(column.height()),
    ensures
        column.replay(colors, draws).wf(),
        column.replay(colors, draws).height() == column.height(),
        column.replay(colors, draws).x == column.x,
    decreases draws.len(),
{
    if draws.len() > 0 {
        lemma_replay_keeps_wf(column, colors, draws.drop_last());
        lemma_step_keeps_wf(column.replay(colors, draws.drop_last()), colors, draws.last());
    }
}

/// Between two restarts the head never moves up: a tick leaves it where it
/// is or takes it down one row. It goes back to -1 only on a tick that
/// finds it `stream_length` rows below the screen after moving it.
pub proof fn lemma_head_moves_down_or_restarts(column: ColumnView, colors: ColorScheme, draw: Draw)
    requires
        column.wf(),
        draw.fits(column.height()),
    ensures
        column.throttled() ==> column.step(colors, draw).head == column.head,
        !column.throttled() && !column.runs_out() ==> column.step(colors, draw).head == column.head
            + 1,
        column.runs_out() ==> column.step(colors, draw).head == -1,
        column.step(colors, draw).head < column.head ==> column.step(colors, draw).head == -1
            && column.head + 1 >= column.height() + column.stream_length,
{
}

/// A throttled tick changes nothing but the counter: head, length, speed
/// and every cell stay as they are.
pub proof fn lemma_throttled_tick_only_counts(column: ColumnView, colors: ColorScheme, draw: Draw)
    requires
        column.throttled(),
    ensures
        column.step(colors, draw) == (ColumnView {
            tick_counter: column.tick_counter + 1,
            ..column
        }),
{
}

/// A column whose divisor is larger than its counter plus the number of
/// ticks only counts through those ticks, whatever is drawn.
pub proof fn lemma_waiting_ticks_only_count(
    column: ColumnView,
    colors: ColorScheme,
    draws: Seq<Draw>,
)
    requires
        column.tick_counter + draws.len() < column.speed_divisor,
    ensures
        column.replay(colors, draws) == (ColumnView {
            tick_counter: column.tick_counter + draws.len(),
            ..column
        }),
    decreases draws.len(),
{
    if draws.len() > 0 {
        lemma_waiting_ticks_only_count(column, colors, draws.drop_last());
    }
}

/// A column that has just moved its head moves it again on the tick that
/// completes its divisor and on no tick before: the ticks in between leave
/// it as it is but for the counter.
pub proof fn lemma_head_moves_once_per_divisor(
    column: ColumnView,
    colors: ColorScheme,
    draws: Seq<Draw>,
)
    requires
        column.wf(),
        column.tick_counter == 0,
        draws.len() == column.speed_divisor,
    ensures
        forall|n: int|
            0 <= n < draws.len() ==> #[trigger] column.replay(colors, draws.take(n)) == (
            ColumnView { tick_counter: n, ..column }),
        column.replay(colors, draws) == (ColumnView {
            tick_counter: column.speed_divisor - 1,
            ..column
        }).step(colors, draws.last()),
        !(ColumnView { tick_counter: column.speed_divisor - 1, ..column }).throttled(),
{
    assert forall|n: int| 0 <= n < draws.len() implies #[trigger] column.replay(
        colors,
        draws.take(n),
    ) == (ColumnView { tick_counter: n, ..column }) by {
        lemma_waiting_ticks_only_count(column, colors, draws.take(n));
    }
    lemma_waiting_ticks_only_count(column, colors, draws.drop_last());
}

/// The same ticks from the same column give the same column, after each
/// tick along the way: nothing but the draws decides what a tick does.
pub proof fn lemma_replay_is_determined(
    first: ColumnView,
    second: ColumnView,
    colors: ColorScheme,
    draws: Seq<Draw>,
    again: Seq<Draw>,
)
    requires
        first == second,
        draws.len() == again.len(),
        forall|i: int| 0 <= i < draws.len() ==> draws[i] == again[i],
    ensures
        forall|n: int|
            0 <= n <= draws.len() ==> #[trigger] first.replay(colors, draws.take(n))
                == second.replay(colors, again.take(n)),
{
    assert(draws =~= again);
}

/// A column before its first tick is well formed and in formation.
pub proof fn lemma_fresh_in_formation(x: int, height: int, stream_length: int, speed_divisor: int)
    requires
        0 <= x <= MAX_X,
        MIN_HEIGHT <= height <= u16::MAX,
        stream_fits(stream_length, height),
        divisor_fits(speed_divisor),
    ensures
        ColumnView::fresh(x, height, stream_length, speed_divisor).wf(),
        ColumnView::fresh(x, height, stream_length, speed_divisor).in_formation(),
        ColumnView::fresh(x, height, stream_length, speed_divisor).height() == height,
{
}

/// One tick keeps a column in formation: behind the head the lifetimes
/// fall by one from row to row, and a stream starts over only when every
/// cell has gone blank.
pub proof fn lemma_step_keeps_formation(column: ColumnView, colors: ColorScheme, draw: Draw)
    requires
        column.wf(),
        column.in_formation(),
        draw.fits(column.height()),
    ensures
        column.step(colors, draw).in_formation(),
        column.runs_out() ==> forall|row: int|
            0 <= row < column.height() ==> (#[trigger] column.step(colors, draw).cells[row]).lifetime
                == 0,
{
    let next = column.step(colors, draw);
    if !column.throttled() {
        assert forall|row: int| 0 <= row < next.height() implies (#[trigger] next.cells[row]).lifetime
            == next.lifetime_at(row) by {
            assert(column.cells[row].lifetime == column.lifetime_at(row));
        }
    }
}

/// Any number of ticks keeps a column in formation.
pub proof fn lemma_replay_keeps_formation(
    column: ColumnView,
    colors: ColorScheme,
    draws: Seq<Draw>,
)
    requires
        column.wf(),
        column.in_formation(),
        forall|i: int| 0 <= i < draws.len() ==> (#[trigger] draws[i]).fits(column.height()),
    ensures
        column.replay(colors, draws).in_formation(),
    decreases draws.len(),
{
    if draws.len() > 0 {
        lemma_replay_keeps_wf(column, colors, draws.drop_last());
        lemma_replay_keeps_formation(column, colors, draws.drop_last());
        lemma_step_keeps_formation(column.replay(colors, draws.drop_last()), colors, draws.last());
    }
}

/// After an advancing tick of a column in formation the lit cells show
/// three tiers: the head colour under the head, the trail colour on the
/// `BRIGHT_BAND - 1` rows right above it, the fade colour on the rest.
pub proof fn lemma_advancing_tick_colors(column: ColumnView, colors: ColorScheme, draw: Draw)
    requires
        column.wf(),
        column.in_formation(),
        draw.fits(column.height()),
        !column.throttled(),
        !column.runs_out(),
    ensures
        forall|row: int|
            0 <= row < column.height() && (#[trigger] column.step(colors, draw).cells[row]).lifetime
                > 0 ==> column.step(colors, draw).cells[row].color == (if row == column.head + 1 {
                colors.head
            } else if column.head + 1 - row < BRIGHT_BAND {
                colors.trail
            } else {
                colors.fade
            }),
{
    let next = column.step(colors, draw);
    assert forall|row: int|
        0 <= row < column.height() && (#[trigger] next.cells[row]).lifetime > 0 implies next.cells[row].color
        == (if row == column.head + 1 {
        colors.head
    } else if column.head + 1 - row < BRIGHT_BAND {
        colors.trail
    } else {
        colors.fade
    }) by {
        assert(column.cells[row].lifetime == column.lifetime_at(row));
    }
}

/// In a column before its first tick every cell is empty: its lifetime is
/// 0 and its glyph is blank. This holds at any position and for any
/// height.
pub proof fn lemma_fresh_cells_consistent(
    x: int,
    height: int,
    stream_length: int,
    speed_divisor: int,
)
    requires
        0 <= height,
    ensures
        ColumnView::fresh(x, height, stream_length, speed_divisor).height() == height,
        ColumnView::fresh(x, height, stream_length, speed_divisor).cells_consistent(),
        forall|row: int|
            0 <= row < height ==> #[trigger] ColumnView::fresh(
                x,
                height,
                stream_length,
                speed_divisor,
            ).cells[row] == Cell::empty(),
{
}

/// One tick keeps the cells consistent: afterwards, as before, the glyph
/// of a cell is blank exactly when its lifetime is 0. All that is asked of
/// the column is a stream length that a lifetime can hold, and of the draw
/// a glyph that is not blank.
pub proof fn lemma_step_keeps_cells_consistent(column: ColumnView, colors: ColorScheme, draw: Draw)
    requires
        column.cells_consistent(),
        0 < column.stream_length <= i32::MAX,
        draw.glyph != BLANK,
    ensures
        column.step(colors, draw).cells_consistent(),
        column.step(colors, draw).height() == column.height(),
{
    let next = column.step(colors, draw);
    if !column.throttled() {
        assert forall|row: int| 0 <= row < next.height() implies (#[trigger] next.cells[row]).wf() by {
            assert(column.cells[row].wf());
        }
    }
}

/// At all times, in every cell of every column, the glyph is blank exactly
/// when the lifetime is 0: it is so before the first tick, and after each
/// tick of any series of ticks.
pub proof fn lemma_cells_always_consistent(
    column: ColumnView,
    colors: ColorScheme,
    draws: Seq<Draw>,
    ticks: int,
    row: int,
)
    requires
        column.wf(),
        forall|i: int| 0 <= i < draws.len() ==> (#[trigger] draws[i]).fits(column.height()),
        0 <= ticks <= draws.len(),
        0 <= row < column.height(),
    ensures
        column.replay(colors, draws.take(ticks)).height() == column.height(),
        column.replay(colors, draws.take(ticks)).cells[row].lifetime == 0 <==> column.replay(
            colors,
            draws.take(ticks),
        ).cells[row].glyph == BLANK,
        column.replay(colors, draws.take(ticks)).cells[row].lifetime >= 0,
{
    lemma_replay_keeps_wf(column, colors, draws.take(ticks));
    assert(column.replay(colors, draws.take(ticks)).cells[row].wf());
}

} // verus!
