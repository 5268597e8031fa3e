//! The modes of the application and what each input does in each of them.

use crate::charset::{registrable, CharSetRegistry, CharSetView};
use crate::column::{Column, ColumnView, Paint, MAX_X, MIN_HEIGHT};
use crate::config::{Adjustment, Config, ConfigView};
use crate::text::{menu_lines, menu_text, paused_line, paused_text};
use crate::theme::{
    theme, theme_label, theme_name, theme_table, tick_duration, tick_millis, ColorScheme,
};
use vstd::prelude::*;

verus! {

/// The mode that the application is in.
#[derive(Clone, Copy, Debug, PartialEq, Eq, Structural)]
pub enum AppState {
    /// The animation runs.
    Matrix,
    /// The animation stands still under a status line.
    Paused,
    /// The configuration menu is shown.
    ConfigMenu,
}

/// Which of the two sets of key bindings is in force.
#[derive(Clone, Copy, Debug, PartialEq, Eq, Structural)]
pub enum Variant {
    /// Space pauses, and the up and down arrows choose the character set.
    Multilingual,
    /// `p` pauses, and there is one character set, with nothing to choose.
    Monolingual,
}

/// A key, as far as the application tells keys apart.
#[derive(Clone, Copy, Debug, PartialEq, Eq, Structural)]
pub enum Key {
    Char(char),
    Escape,
    Left,
    Right,
    Up,
    Down,
    Other,
}

/// What the application waits for: a key, or the end of a tick with no key.
#[derive(Clone, Copy, Debug, PartialEq, Eq, Structural)]
pub enum Input {
    Timeout,
    Key(Key),
}

/// What is left to do outside after an input has been handled.
#[derive(Clone, Copy, Debug, PartialEq, Eq, Structural)]
pub enum Action {
    /// Leave the loop and restore the terminal.
    Quit,
    /// The animation has moved by one tick: clear the screen and paint the
    /// new frame.
    Redraw,
    /// Nothing: leave the screen as it is.
    Idle,
}

/// How the application answers one input: the mode it goes to, what is left
/// to do outside, and the change to the configuration, if there is one.
#[derive(Clone, Copy, Debug, PartialEq, Eq, Structural)]
pub struct Reaction {
    pub state: AppState,
    pub action: Action,
    pub adjustment: Option<Adjustment>,
}

/// What to show over or in place of the animation.
pub struct Overlay {
    pub text: String,
    /// Whether the screen is cleared before the text is shown.
    pub clear: bool,
}

/// The key that pauses and resumes.
pub open spec fn pause_key(variant: Variant) -> char {
    match variant {
        Variant::Multilingual => ' ',
        Variant::Monolingual => 'p',
    }
}

/// Whether `key` ends the run from the animation or from the pause.
pub open spec fn is_quit(key: Key) -> bool {
    key == Key::Char('q') || key == Key::Escape
}

/// Whether `key` closes the configuration menu.
pub open spec fn closes_menu(key: Key) -> bool {
    key == Key::Char('c') || key == Key::Escape
}

/// The change that `key` makes in the configuration menu, if it makes one.
pub open spec fn adjustment_for(variant: Variant, key: Key) -> Option<Adjustment> {
    match key {
        Key::Char(c) => if c == '+' {
            Some(Adjustment::SpeedUp)
        } else if c == '-' {
            Some(Adjustment::SpeedDown)
        } else {
            None
        },
        Key::Right => Some(Adjustment::NextTheme),
        Key::Left => Some(Adjustment::PreviousTheme),
        Key::Up => if variant == Variant::Multilingual {
            Some(Adjustment::NextLanguage)
        } else {
            None
        },
        Key::Down => if variant == Variant::Multilingual {
            Some(Adjustment::PreviousLanguage)
        } else {
            None
        },
        _ => None,
    }
}

/// The answer that changes nothing.
pub open spec fn ignored(state: AppState) -> Reaction {
    Reaction { state, action: Action::Idle, adjustment: None }
}

/// How the application answers `input` in mode `state`.
///
/// While the animation runs, a tick that ends with no key moves it; the
/// quit keys end the run, the pause key pauses, `c` opens the menu, and any
/// other key is passed over without a tick. While paused, the quit keys end
/// the run and the pause key resumes. In the menu, `c` and Escape go back
/// to the animation and the adjusting keys change the configuration.
pub open spec fn reaction(variant: Variant, state: AppState, input: Input) -> Reaction {
    match input {
        Input::Timeout => match state {
            AppState::Matrix => Reaction { state, action: Action::Redraw, adjustment: None },
            _ => ignored(state),
        },
        Input::Key(key) => match state {
            AppState::Matrix => if is_quit(key) {
                Reaction { state, action: Action::Quit, adjustment: None }
            } else if key == Key::Char(pause_key(variant)) {
                ignored(AppState::Paused)
            } else if key == Key::Char('c') {
                ignored(AppState::ConfigMenu)
            } else {
                ignored(state)
            },
            AppState::Paused => if is_quit(key) {
                Reaction { state, action: Action::Quit, adjustment: None }
            } else if key == Key::Char(pause_key(variant)) {
                ignored(AppState::Matrix)
            } else {
                ignored(state)
            },
            AppState::ConfigMenu => if closes_menu(key) {
                ignored(AppState::Matrix)
            } else {
                Reaction { state, action: Action::Idle, adjustment: adjustment_for(variant, key) }
            },
        },
    }
}

/// The key that pauses and resumes.
pub fn pause_key_of(variant: Variant) -> (key: char)
    ensures
        key == pause_key(variant),
{
    match variant {
        Variant::Multilingual => ' ',
        Variant::Monolingual => 'p',
    }
}

/// The change that `key` makes in the configuration menu, if it makes one.
pub fn adjustment_of(variant: Variant, key: Key) -> (change: Option<Adjustment>)
    ensures
        change == adjustment_for(variant, key),
{
    let multilingual: bool = match variant {
        Variant::Multilingual => true,
        Variant::Monolingual => false,
    };
    match key {
        Key::Char(c) => if c == '+' {
            Some(Adjustment::SpeedUp)
        } else if c == '-' {
            Some(Adjustment::SpeedDown)
        } else {
            None
        },
        Key::Right => Some(Adjustment::NextTheme),
        Key::Left => Some(Adjustment::PreviousTheme),
        Key::Up => if multilingual {
            Some(Adjustment::NextLanguage)
        } else {
            None
        },
        Key::Down => if multilingual {
            Some(Adjustment::PreviousLanguage)
        } else {
            None
        },
        _ => None,
    }
}

/// How the application answers `input` in mode `state`.
pub fn react(variant: Variant, state: AppState, input: Input) -> (answer: Reaction)
    ensures
        answer == reaction(variant, state, input),
{
    let idle = Reaction { state, action: Action::Idle, adjustment: None };
    let quit = Reaction { state, action: Action::Quit, adjustment: None };
    match input {
        Input::Timeout => match state {
            AppState::Matrix => Reaction { state, action: Action::Redraw, adjustment: None },
            _ => idle,
        },
        Input::Key(key) => {
            let pause: bool = match key {
                Key::Char(c) => c == pause_key_of(variant),
                _ => false,
            };
            let (letter_q, letter_c): (bool, bool) = match key {
                Key::Char(c) => (c == 'q', c == 'c'),
                _ => (false, false),
            };
            let escape: bool = match key {
                Key::Escape => true,
                _ => false,
            };
            match state {
                AppState::Matrix => if letter_q || escape {
                    quit
                } else if pause {
                    Reaction { state: AppState::Paused, ..idle }
                } else if letter_c {
                    Reaction { state: AppState::ConfigMenu, ..idle }
                } else {
                    idle
                },
                AppState::Paused => if letter_q || escape {
                    quit
                } else if pause {
                    Reaction { state: AppState::Matrix, ..idle }
                } else {
                    idle
                },
                AppState::ConfigMenu => if letter_c || escape {
                    Reaction { state: AppState::Matrix, ..idle }
                } else {
                    Reaction { adjustment: adjustment_of(variant, key), ..idle }
                },
            }
        },
    }
}

/// The application as plain values: its variant and mode, the
/// configuration, the registered character sets, and the columns from left
/// to right.
pub struct ControllerView {
    pub variant: Variant,
    pub state: AppState,
    pub config: ConfigView,
    pub sets: Seq<CharSetView>,
    pub columns: Seq<ColumnView>,
}

/// What to paint for the first `count` columns: the lit cells of each, the
/// columns from left to right.
pub open spec fn frame_of(columns: Seq<ColumnView>, count: int) -> Seq<Paint>
    decreases count,
{
    if count <= 0 {
        Seq::empty()
    } else {
        frame_of(columns, count - 1) + columns[count - 1].painted(columns[count - 1].height())
    }
}

impl ControllerView {
    /// What holds of the application at all times: the configuration is
    /// inside its tables and chooses among the registered sets, and every
    /// column is well formed.
    pub open spec fn wf(self) -> bool {
        &&& self.config.wf()
        &&& self.config.languages == self.sets.len()
        &&& registrable(self.sets)
        &&& forall|i: int| 0 <= i < self.columns.len() ==> (#[trigger] self.columns[i]).wf()
    }

    /// The colours of the chosen theme.
    pub open spec fn colors(self) -> ColorScheme {
        theme_table(self.config.theme_index)
    }

    /// The glyphs of the active character set.
    pub open spec fn glyphs(self) -> Seq<char> {
        self.sets[self.config.language_index].glyphs
    }

    /// Whether `next` is what one animation tick can make of the columns:
    /// each column has taken one tick, in the colours of the chosen theme
    /// and with glyphs of the active character set.
    pub open spec fn ticks_to(self, next: Seq<ColumnView>) -> bool {
        &&& next.len() == self.columns.len()
        &&& forall|i: int|
            0 <= i < self.columns.len() ==> (#[trigger] self.columns[i]).steps_to(
                self.colors(),
                self.glyphs(),
                next[i],
            )
    }

    /// The configuration after the answer `answer`.
    pub open spec fn config_after(self, answer: Reaction) -> ConfigView {
        match answer.adjustment {
            Some(change) => self.config.adjusted(change),
            None => self.config,
        }
    }

    /// Whether handling `input` can lead to `next` with `action` left to
    /// do. Mode, configuration and action are those of `reaction`; the
    /// columns take one tick where the action is to redraw and stay as they
    /// are otherwise.
    pub open spec fn handles(self, input: Input, next: ControllerView, action: Action) -> bool {
        let answer = reaction(self.variant, self.state, input);
        &&& action == answer.action
        &&& next.variant == self.variant
        &&& next.state == answer.state
        &&& next.config == self.config_after(answer)
        &&& next.sets == self.sets
        &&& if answer.action == Action::Redraw {
            self.ticks_to(next.columns)
        } else {
            next.columns == self.columns
        }
    }
}

/// The application: its mode, its configuration, and the columns that it
/// animates.
pub struct Controller {
    variant: Variant,
    state: AppState,
    config: Config,
    registry: CharSetRegistry,
    columns: Vec<Column>,
}

impl View for Controller {
    type V = ControllerView;

    closed spec fn view(&self) -> ControllerView {
        ControllerView {
            variant: self.variant,
            state: self.state,
            config: self.config@,
            sets: self.registry@,
            columns: Seq::new(self.columns@.len(), |i: int| self.columns@[i]@),
        }
    }
}

impl Controller {
    /// The configuration always chooses among the registered sets.
    #[verifier::type_invariant]
    pub open spec fn well_formed(&self) -> bool {
        self@.config.languages == self@.sets.len()
    }

    /// An application in a terminal of `width` by `height` character cells:
    /// one column for every two terminal columns, each before its first
    /// tick, the animation running, the configuration as a run starts with.
    pub fn new(width: u16, height: u16, variant: Variant, registry: CharSetRegistry) -> (controller:
        Controller)
        requires
            height >= MIN_HEIGHT,
        ensures
            controller@.wf(),
            controller@.variant == variant,
            controller@.state == AppState::Matrix,
            controller@.config == ConfigView::initial(registry@.len() as int),
            controller@.sets == registry@,
            controller@.columns.len() == width / 2,
            forall|i: int|
                0 <= i < width / 2 ==> #[trigger] controller@.columns[i] == ColumnView::fresh(
                    i,
                    height as int,
                    controller@.columns[i].stream_length,
                    controller@.columns[i].speed_divisor,
                ),
    {
        proof {
            use_type_invariant(&registry);
        }
        let count: u16 = width / 2;
        let mut columns: Vec<Column> = Vec::new();
        let mut x: u16 = 0;
        while x < count
            invariant
                x <= count <= MAX_X,
                height >= MIN_HEIGHT,
                columns@.len() == x,
                forall|i: int|
                    0 <= i < x ==> (#[trigger] columns@[i])@.wf() && columns@[i]@
                        == ColumnView::fresh(
                        i,
                        height as int,
                        columns@[i]@.stream_length,
                        columns@[i]@.speed_divisor,
                    ),
            decreases count - x,
        {
            columns.push(Column::new(x, height));
            x = x + 1;
        }
        let config: Config = Config::new(registry.len());
        Controller { variant, state: AppState::Matrix, config, registry, columns }
    }

    /// Which set of key bindings is in force.
    pub fn variant(&self) -> (variant: Variant)
        ensures
            variant == self@.variant,
    {
        self.variant
    }

    /// The mode that the application is in.
    pub fn state(&self) -> (state: AppState)
        ensures
            state == self@.state,
    {
        self.state
    }

    /// The configuration.
    pub fn config(&self) -> (config: &Config)
        ensures
            config@ == self@.config,
            config@.wf(),
            config@.languages == self@.sets.len(),
    {
        proof {
            use_type_invariant(self);
            use_type_invariant(&self.config);
        }
        &self.config
    }

    /// The registered character sets.
    pub fn registry(&self) -> (registry: &CharSetRegistry)
        ensures
            registry@ == self@.sets,
    {
        &self.registry
    }

    /// How many columns there are.
    pub fn column_count(&self) -> (count: usize)
        ensures
            count == self@.columns.len(),
    {
        self.columns.len()
    }

    /// The column at `index`, counted from the left.
    pub fn column(&self, index: usize) -> (column: &Column)
        requires
            index < self@.columns.len(),
        ensures
            column@ == self@.columns[index as int],
            column@.wf(),
    {
        let column: &Column = &self.columns[index];
        proof {
            use_type_invariant(column);
        }
        column
    }

    /// How long to wait for a key before the next tick, in milliseconds;
    /// nothing while the application waits for a key without a limit.
    pub fn poll_timeout(&self) -> (millis: Option<u64>)
        ensures
            millis == (if self@.state == AppState::Matrix {
                Some(tick_millis(self@.config.speed_level) as u64)
            } else {
                None
            }),
    {
        match self.state {
            AppState::Matrix => Some(tick_duration(self.config.speed_level())),
            _ => None,
        }
    }

    /// What to show before waiting for the next key: nothing while the
    /// animation runs, the status line over the last frame while it is
    /// paused, the menu on a cleared screen while configuring.
    pub fn overlay(&self) -> (overlay: Option<Overlay>)
        ensures
            self@.state == AppState::Matrix ==> overlay is None,
            self@.state == AppState::Paused ==> overlay is Some && !overlay.unwrap().clear
                && overlay.unwrap().text@ == paused_line(self@.variant),
            self@.state == AppState::ConfigMenu ==> overlay is Some && overlay.unwrap().clear
                && overlay.unwrap().text@ == menu_lines(
                self@.variant,
                self@.config.speed_level as nat,
                theme_label(self@.config.theme_index),
                self@.sets[self@.config.language_index].name,
            ),
    {
        proof {
            use_type_invariant(self);
        }
        match self.state {
            AppState::Matrix => None,
            AppState::Paused => Some(
                Overlay { text: String::from_str(paused_text(self.variant)), clear: false },
            ),
            AppState::ConfigMenu => {
                let language: &str = self.registry.set(self.config.language_index()).name();
                let text: String = menu_text(
                    self.variant,
                    self.config.speed_level(),
                    theme_name(self.config.theme_index()),
                    language,
                );
                Some(Overlay { text, clear: true })
            },
        }
    }

    /// What to paint for the whole screen: the lit cells of every column,
    /// the columns from left to right.
    pub fn frame(&self) -> (paints: Vec<Paint>)
        ensures
            paints@ == frame_of(self@.columns, self@.columns.len() as int),
    {
        let mut paints: Vec<Paint> = Vec::new();
        let mut index: usize = 0;
        while index < self.columns.len()
            invariant
                index <= self.columns.len(),
                paints@ == frame_of(self@.columns, index as int),
            decreases self.columns.len() - index,
        {
            let mut more: Vec<Paint> = self.columns[index].draw();
            paints.append(&mut more);
            index = index + 1;
        }
        paints
    }

    /// Moves every column by one tick.
    fn tick(&mut self)
        ensures
            old(self)@.ticks_to(final(self)@.columns),
            final(self)@ == (ControllerView { columns: final(self)@.columns, ..old(self)@ }),
    {
        proof {
            use_type_invariant(&*self);
        }
        let colors = theme(self.config.theme_index());
        let mut columns: Vec<Column> = Vec::new();
        core::mem::swap(&mut self.columns, &mut columns);
        let glyphs = self.registry.set(self.config.language_index());
        let ghost before = columns@;
        let mut index: usize = 0;
        while index < columns.len()
            invariant
                index <= columns.len(),
                columns@.len() == before.len(),
                forall|i: int|
                    0 <= i < index ==> (#[trigger] before[i])@.steps_to(
                        colors,
                        glyphs@.glyphs,
                        columns@[i]@,
                    ),
                forall|i: int| index <= i < columns.len() ==> columns@[i] == before[i],
            decreases columns.len() - index,
        {
            columns[index].update(&colors, glyphs);
            index = index + 1;
        }
        core::mem::swap(&mut self.columns, &mut columns);
    }

    /// Handles one input: changes mode and configuration as `reaction`
    /// says, moves the animation by one tick where a tick has ended with no
    /// key while it runs, and says what is left to do outside.
    pub fn handle(&mut self, input: Input) -> (action: Action)
        ensures
            old(self)@.handles(input, final(self)@, action),
    {
        proof {
            use_type_invariant(&*self);
        }
        let answer: Reaction = react(self.variant, self.state, input);
        self.state = answer.state;
        match answer.adjustment {
            Some(change) => {
                self.config.adjust(change);
            },
            None => {},
        }
        match answer.action {
            Action::Redraw => {
                self.tick();
            },
            _ => {},
        }
        answer.action
    }
}

} // verus!
