//! What the user can adjust while the animation runs.

use crate::theme::{MAX_SPEED, MIN_SPEED, THEME_COUNT};
use vstd::prelude::*;

verus! {

/// Speed level of a fresh configuration.
pub const DEFAULT_SPEED: usize = 5;

/// One change that the configuration menu can make.
#[derive(Clone, Copy, Debug, PartialEq, Eq, Structural)]
pub enum Adjustment {
    SpeedUp,
    SpeedDown,
    NextTheme,
    PreviousTheme,
    NextLanguage,
    PreviousLanguage,
}

/// The configuration as numbers: the three choices, and how many character
/// sets there are to choose from.
pub struct ConfigView {
    pub theme_index: int,
    pub speed_level: int,
    pub language_index: int,
    pub languages: int,
}

/// One step up an index that wraps round after `count` places.
pub open spec fn wrap_next(index: int, count: int) -> int {
    if index + 1 >= count {
        0
    } else {
        index + 1
    }
}

/// One step down an index that wraps round after `count` places.
pub open spec fn wrap_previous(index: int, count: int) -> int {
    if index <= 0 {
        count - 1
    } else {
        index - 1
    }
}

impl ConfigView {
    /// Every choice is inside its table.
    pub open spec fn wf(self) -> bool {
        &&& 0 <= self.theme_index < THEME_COUNT
        &&& MIN_SPEED <= self.speed_level <= MAX_SPEED
        &&& 0 <= self.language_index < self.languages
    }

    /// The configuration that a run starts with.
    pub open spec fn initial(languages: int) -> ConfigView {
        ConfigView { theme_index: 0, speed_level: DEFAULT_SPEED as int, language_index: 0, languages }
    }

    /// The configuration after one adjustment: the speed stops at either
    /// end of its scale, the theme and the language wrap round.
    pub open spec fn adjusted(self, change: Adjustment) -> ConfigView {
        match change {
            Adjustment::SpeedUp => ConfigView {
                speed_level: if self.speed_level + 1 > MAX_SPEED {
                    MAX_SPEED as int
                } else {
                    self.speed_level + 1
                },
                ..self
            },
            Adjustment::SpeedDown => ConfigView {
                speed_level: if self.speed_level - 1 < MIN_SPEED {
                    MIN_SPEED as int
                } else {
                    self.speed_level - 1
                },
                ..self
            },
            Adjustment::NextTheme => ConfigView {
                theme_index: wrap_next(self.theme_index, THEME_COUNT as int),
                ..self
            },
            Adjustment::PreviousTheme => ConfigView {
                theme_index: wrap_previous(self.theme_index, THEME_COUNT as int),
                ..self
            },
            Adjustment::NextLanguage => ConfigView {
                language_index: wrap_next(self.language_index, self.languages),
                ..self
            },
            Adjustment::PreviousLanguage => ConfigView {
                language_index: wrap_previous(self.language_index, self.languages),
                ..self
            },
        }
    }

    /// The configuration after a whole series of adjustments, first to last.
    pub open spec fn adjusted_by(self, changes: Seq<Adjustment>) -> ConfigView
        decreases changes.len(),
    {
        if changes.len() == 0 {
            self
        } else {
            self.adjusted_by(changes.drop_last()).adjusted(changes.last())
        }
    }
}

/// The configuration of a run.
pub struct Config {
    theme_index: usize,
    speed_level: usize,
    language_index: usize,
    languages: usize,
}

impl View for Config {
    type V = ConfigView;

    closed spec fn view(&self) -> ConfigView {
        ConfigView {
            theme_index: self.theme_index as int,
            speed_level: self.speed_level as int,
            language_index: self.language_index as int,
            languages: self.languages as int,
        }
    }
}

impl Config {
    /// A configuration never leaves its tables.
    #[verifier::type_invariant]
    pub open spec fn well_formed(&self) -> bool {
        self@.wf()
    }

    /// The configuration that a run starts with: the first theme, the
    /// middle speed, the first of `languages` character sets.
    pub fn new(languages: usize) -> (config: Config)
        requires
            languages > 0,
        ensures
            config@ == ConfigView::initial(languages as int),
    {
        Config { theme_index: 0, speed_level: DEFAULT_SPEED, language_index: 0, languages }
    }

    pub fn theme_index(&self) -> (index: usize)
        ensures
            index == self@.theme_index,
            index < THEME_COUNT,
    {
        proof {
            use_type_invariant(self);
        }
        self.theme_index
    }

    pub fn speed_level(&self) -> (level: usize)
        ensures
            level == self@.speed_level,
            MIN_SPEED <= level <= MAX_SPEED,
    {
        proof {
            use_type_invariant(self);
        }
        self.speed_level
    }

    pub fn language_index(&self) -> (index: usize)
        ensures
            index == self@.language_index,
            index < self@.languages,
    {
        proof {
            use_type_invariant(self);
        }
        self.language_index
    }

    /// How many character sets there are to choose from.
    pub fn languages(&self) -> (count: usize)
        ensures
            count == self@.languages,
            count > 0,
    {
        proof {
            use_type_invariant(self);
        }
        self.languages
    }

    /// One level faster, unless the speed is at its highest already.
    pub fn increase_speed(&mut self)
        ensures
            final(self)@ == old(self)@.adjusted(Adjustment::SpeedUp),
            MIN_SPEED <= final(self)@.speed_level <= MAX_SPEED,
        no_unwind
    {
        proof {
            use_type_invariant(&*self);
        }
        if self.speed_level < MAX_SPEED {
            self.speed_level = self.speed_level + 1;
        }
    }

    /// One level slower, unless the speed is at its lowest already.
    pub fn decrease_speed(&mut self)
        ensures
            final(self)@ == old(self)@.adjusted(Adjustment::SpeedDown),
            MIN_SPEED <= final(self)@.speed_level <= MAX_SPEED,
        no_unwind
    {
        proof {
            use_type_invariant(&*self);
        }
        if self.speed_level > MIN_SPEED {
            self.speed_level = self.speed_level - 1;
        }
    }

    /// The theme after this one; the first after the last.
    pub fn next_theme(&mut self)
        ensures
            final(self)@ == old(self)@.adjusted(Adjustment::NextTheme),
            0 <= final(self)@.theme_index < THEME_COUNT,
        no_unwind
    {
        proof {
            use_type_invariant(&*self);
        }
        self.theme_index = (self.theme_index + 1) % THEME_COUNT;
    }

    /// The theme before this one; the last before the first.
    pub fn previous_theme(&mut self)
        ensures
            final(self)@ == old(self)@.adjusted(Adjustment::PreviousTheme),
            0 <= final(self)@.theme_index < THEME_COUNT,
        no_unwind
    {
        proof {
            use_type_invariant(&*self);
        }
        self.theme_index = if self.theme_index == 0 {
            THEME_COUNT - 1
        } else {
            self.theme_index - 1
        };
    }

    /// The character set after this one; the first after the last.
    pub fn next_language(&mut self)
        ensures
            final(self)@ == old(self)@.adjusted(Adjustment::NextLanguage),
            0 <= final(self)@.language_index < final(self)@.languages,
        no_unwind
    {
        proof {
            use_type_invariant(&*self);
        }
        self.language_index = if self.language_index + 1 >= self.languages {
            0
        } else {
            self.language_index + 1
        };
    }

    /// The character set before this one; the last before the first.
    pub fn previous_language(&mut self)
        ensures
            final(self)@ == old(self)@.adjusted(Adjustment::PreviousLanguage),
            0 <= final(self)@.language_index < final(self)@.languages,
        no_unwind
    {
        proof {
            use_type_invariant(&*self);
        }
        self.language_index = if self.language_index == 0 {
            self.languages - 1
        } else {
            self.language_index - 1
        };
    }

    /// Makes one adjustment.
    pub fn adjust(&mut self, change: Adjustment)
        ensures
            final(self)@ == old(self)@.adjusted(change),
            final(self)@.wf(),
        no_unwind
    {
        proof {
            use_type_invariant(&*self);
        }
        match change {
            Adjustment::SpeedUp => self.increase_speed(),
            Adjustment::SpeedDown => self.decrease_speed(),
            Adjustment::NextTheme => self.next_theme(),
            Adjustment::PreviousTheme => self.previous_theme(),
            Adjustment::NextLanguage => self.next_language(),
            Adjustment::PreviousLanguage => self.previous_language(),
        }
    }
}

/// One adjustment keeps every choice inside its table: the speed level
/// between 1 and 10, the theme and the language below their counts.
pub proof fn lemma_adjusted_stays_in_range(config: ConfigView, change: Adjustment)
    requires
        config.wf(),
    ensures
        config.adjusted(change).wf(),
        config.adjusted(change).languages == config.languages,
{
}

/// Any number of adjustments, in any order, keeps the speed level between 1
/// and 10 and the theme and language indices inside their tables.
pub proof fn lemma_adjustments_stay_in_range(config: ConfigView, changes: Seq<Adjustment>)
    requires
        config.wf(),
    ensures
        config.adjusted_by(changes).wf(),
        MIN_SPEED <= config.adjusted_by(changes).speed_level <= MAX_SPEED,
        0 <= config.adjusted_by(changes).theme_index < THEME_COUNT,
        config.adjusted_by(changes).languages == config.languages,
    decreases changes.len(),
{
    if changes.len() > 0 {
        lemma_adjustments_stay_in_range(config, changes.drop_last());
        lemma_adjusted_stays_in_range(config.adjusted_by(changes.drop_last()), changes.last());
    }
}

/// The speed is clamped, never wrapped: at the top of the scale a step up
/// changes nothing, at the bottom a step down changes nothing, and anywhere
/// a step moves the level by at most one.
pub proof fn lemma_speed_clamps(config: ConfigView)
    requires
        config.wf(),
    ensures
        config.speed_level == MAX_SPEED ==> config.adjusted(Adjustment::SpeedUp) == config,
        config.speed_level == MIN_SPEED ==> config.adjusted(Adjustment::SpeedDown) == config,
        config.speed_level < MAX_SPEED ==> config.adjusted(Adjustment::SpeedUp).speed_level
            == config.speed_level + 1,
        config.speed_level > MIN_SPEED ==> config.adjusted(Adjustment::SpeedDown).speed_level
            == config.speed_level - 1,
{
}

/// The theme wraps exactly at the ends of the table: the step after the
/// last theme is the first, the step before the first is the last, and a
/// step one way undoes a step the other way.
pub proof fn lemma_theme_wraps(config: ConfigView)
    requires
        config.wf(),
    ensures
        config.theme_index == THEME_COUNT - 1 ==> config.adjusted(
            Adjustment::NextTheme,
        ).theme_index == 0,
        config.theme_index == 0 ==> config.adjusted(Adjustment::PreviousTheme).theme_index
            == THEME_COUNT - 1,
        config.adjusted(Adjustment::NextTheme).theme_index == (config.theme_index + 1)
            % (THEME_COUNT as int),
        config.adjusted(Adjustment::NextTheme).adjusted(Adjustment::PreviousTheme) == config,
        config.adjusted(Adjustment::PreviousTheme).adjusted(Adjustment::NextTheme) == config,
{
}

/// As many steps to the next theme as there are themes lead back to the
/// theme they started from.
pub proof fn lemma_theme_cycle(config: ConfigView)
    requires
        config.wf(),
    ensures
        config.adjusted_by(Seq::new(THEME_COUNT as nat, |i: int| Adjustment::NextTheme))
            == config,
{
    let all = Seq::new(THEME_COUNT as nat, |i: int| Adjustment::NextTheme);
    let three = all.drop_last();
    let two = three.drop_last();
    let one = two.drop_last();
    assert(one.drop_last().len() == 0);
    assert(config.adjusted_by(one.drop_last()) == config);
    assert(config.adjusted_by(one) == config.adjusted(Adjustment::NextTheme));
    assert(config.adjusted_by(two) == config.adjusted_by(one).adjusted(Adjustment::NextTheme));
    assert(config.adjusted_by(three) == config.adjusted_by(two).adjusted(Adjustment::NextTheme));
    assert(config.adjusted_by(all) == config.adjusted_by(three).adjusted(Adjustment::NextTheme));
}

} // verus!
