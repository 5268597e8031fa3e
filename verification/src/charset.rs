//! Character sets: named, ordered sequences of glyphs to draw from.

use crate::random::random_in;
use vstd::prelude::*;

verus! {

/// The glyph of an empty cell. No character set may hold it, so that a lit
/// cell can always be told from an empty one by its glyph.
pub const BLANK: char = ' ';

/// Whether `value` is a Unicode scalar value, that is, a code point that a
/// `char` can hold.
pub open spec fn is_scalar(value: int) -> bool {
    0 <= value <= 0xD7FF || 0xE000 <= value <= 0x10FFFF
}

/// Every scalar value from `first` to `last`, both ends counted, in
/// ascending order. Code points that no `char` can hold are left out;
/// unassigned ones stay in.
pub open spec fn scalars_between(first: int, last: int) -> Seq<char>
    decreases last - first + 1,
{
    if last < first {
        Seq::empty()
    } else if is_scalar(last) {
        scalars_between(first, last - 1).push(last as char)
    } else {
        scalars_between(first, last - 1)
    }
}

/// Whether a character set can be made of `glyphs`: there is something to
/// draw, and nothing drawn is blank.
pub open spec fn drawable(glyphs: Seq<char>) -> bool {
    &&& glyphs.len() > 0
    &&& forall|i: int| 0 <= i < glyphs.len() ==> glyphs[i] != BLANK
}

/// The punctuation that closes the English set.
pub open spec fn punctuation() -> Seq<char> {
    "!@#$%^&*()_+-=[]{}|;:',.<>/?`~"@
}

/// The English set: lower case, upper case, digits, punctuation.
pub open spec fn english_glyphs() -> Seq<char> {
    scalars_between('a' as int, 'z' as int) + scalars_between('A' as int, 'Z' as int)
        + scalars_between('0' as int, '9' as int) + punctuation()
}

/// Every glyph of `scalars_between(first, last)` lies in that range.
pub proof fn lemma_scalars_in_range(first: int, last: int)
    ensures
        forall|i: int|
            0 <= i < scalars_between(first, last).len() ==> first <= (#[trigger] scalars_between(
                first,
                last,
            )[i]) as int <= last,
    decreases last - first + 1,
{
    if last >= first {
        lemma_scalars_in_range(first, last - 1);
        let shorter = scalars_between(first, last - 1);
        assert forall|i: int| 0 <= i < scalars_between(first, last).len() implies first <= (
        #[trigger] scalars_between(first, last)[i]) as int <= last by {
            if i < shorter.len() {
                assert(scalars_between(first, last)[i] == shorter[i]);
            }
        }
    }
}

/// A range that holds no surrogate code point comes out whole: one glyph
/// for each code point, in order.
pub proof fn lemma_scalars_contiguous(first: int, last: int)
    requires
        first <= last + 1,
        0 <= first,
        last <= 0xD7FF || (0xE000 <= first && last <= 0x10FFFF),
    ensures
        scalars_between(first, last).len() == last - first + 1,
        forall|i: int|
            0 <= i <= last - first ==> (#[trigger] scalars_between(first, last)[i]) as int == first
                + i,
    decreases last - first + 1,
{
    if last >= first {
        lemma_scalars_contiguous(first, last - 1);
    }
}

/// What a character set is to the rest of the library.
pub struct CharSetView {
    pub name: Seq<char>,
    pub glyphs: Seq<char>,
}

/// A named sequence of glyphs. Every set that exists can be drawn from: it
/// is not empty and holds no blank.
pub struct CharSet {
    name: String,
    glyphs: Vec<char>,
}

impl View for CharSet {
    type V = CharSetView;

    closed spec fn view(&self) -> CharSetView {
        CharSetView { name: self.name@, glyphs: self.glyphs@ }
    }
}

/// `std`'s `char::from_u32`.
///
/// Trusted, not proved: it gives the `char` with that code exactly when the
/// code is a Unicode scalar value, and nothing for a surrogate or a code
/// above 0x10FFFF.
#[verifier::external_body]
fn char_from_u32(code: u32) -> (glyph: Option<char>)
    ensures
        match glyph {
            Some(c) => is_scalar(code as int) && c as int == code as int,
            None => !is_scalar(code as int),
        },
{
    char::from_u32(code)
}

/// Collects the scalar values from `first` to `last`.
fn collect_scalars(first: u32, last: u32) -> (glyphs: Vec<char>)
    ensures
        glyphs@ == scalars_between(first as int, last as int),
{
    let mut glyphs: Vec<char> = Vec::new();
    if last < first {
        return glyphs;
    }
    let mut code: u32 = first;
    loop
        invariant_except_break
            first <= code <= last,
            glyphs@ == scalars_between(first as int, code - 1),
        ensures
            glyphs@ == scalars_between(first as int, last as int),
        decreases last - code,
    {
        match char_from_u32(code) {
            Some(c) => {
                glyphs.push(c);
            },
            None => {},
        }
        if code == last {
            break ;
        }
        code = code + 1;
    }
    glyphs
}

/// Appends the characters of `text` to `glyphs`.
fn push_chars(glyphs: &mut Vec<char>, text: &str)
    ensures
        final(glyphs)@ == old(glyphs)@ + text@,
{
    let count: usize = text.unicode_len();
    let mut i: usize = 0;
    while i < count
        invariant
            i <= count == text@.len(),
            glyphs@ == old(glyphs)@ + text@.take(i as int),
        decreases count - i,
    {
        glyphs.push(text.get_char(i));
        assert(text@.take(i + 1) == text@.take(i as int).push(text@[i as int]));
        i = i + 1;
    }
    assert(text@.take(count as int) == text@);
}

/// Whether no glyph of `glyphs` is blank and there is at least one.
fn is_drawable(glyphs: &Vec<char>) -> (ok: bool)
    ensures
        ok == drawable(glyphs@),
{
    let mut i: usize = 0;
    while i < glyphs.len()
        invariant
            i <= glyphs.len(),
            forall|j: int| 0 <= j < i ==> glyphs@[j] != BLANK,
        decreases glyphs.len() - i,
    {
        if glyphs[i] == BLANK {
            return false;
        }
        i = i + 1;
    }
    glyphs.len() > 0
}

impl CharSet {
    /// Makes a set of the given glyphs, kept in their order, if it can be
    /// drawn from.
    pub fn new(name: &str, glyphs: Vec<char>) -> (set: Option<CharSet>)
        ensures
            set is Some <==> drawable(glyphs@),
            set matches Some(s) ==> s@ == (CharSetView { name: name@, glyphs: glyphs@ }),
    {
        if is_drawable(&glyphs) {
            Some(CharSet { name: String::from_str(name), glyphs })
        } else {
            None
        }
    }

    /// Makes a set of every scalar value from `first` to `last`, if that
    /// range holds one and does not hold the blank.
    pub fn code_points(name: &str, first: u32, last: u32) -> (set: Option<CharSet>)
        ensures
            set is Some <==> drawable(scalars_between(first as int, last as int)),
            set matches Some(s) ==> s@ == (CharSetView {
                name: name@,
                glyphs: scalars_between(first as int, last as int),
            }),
    {
        CharSet::new(name, collect_scalars(first, last))
    }

    /// The set named "English".
    pub fn english() -> (set: CharSet)
        ensures
            set@ == (CharSetView { name: "English"@, glyphs: english_glyphs() }),
            drawable(set@.glyphs),
    {
        let mut glyphs: Vec<char> = collect_scalars(0x61, 0x7A);
        let mut upper: Vec<char> = collect_scalars(0x41, 0x5A);
        let mut digits: Vec<char> = collect_scalars(0x30, 0x39);
        glyphs.append(&mut upper);
        glyphs.append(&mut digits);
        push_chars(&mut glyphs, "!@#$%^&*()_+-=[]{}|;:',.<>/?`~");
        proof {
            lemma_english_drawable();
        }
        CharSet { name: String::from_str("English"), glyphs }
    }

    /// The set named "Traditional Chinese": the code points 4E00 to 9FA5.
    pub fn traditional_chinese() -> (set: CharSet)
        ensures
            set@ == (CharSetView {
                name: "Traditional Chinese"@,
                glyphs: scalars_between(0x4E00, 0x9FA5),
            }),
            drawable(set@.glyphs),
    {
        let glyphs: Vec<char> = collect_scalars(0x4E00, 0x9FA5);
        proof {
            lemma_scalars_in_range(0x4E00, 0x9FA5);
            lemma_scalars_contiguous(0x4E00, 0x9FA5);
        }
        CharSet { name: String::from_str("Traditional Chinese"), glyphs }
    }

    /// The set named "Simplified Chinese": the code points 4E00 to 9FFF.
    pub fn simplified_chinese() -> (set: CharSet)
        ensures
            set@ == (CharSetView {
                name: "Simplified Chinese"@,
                glyphs: scalars_between(0x4E00, 0x9FFF),
            }),
            drawable(set@.glyphs),
    {
        let glyphs: Vec<char> = collect_scalars(0x4E00, 0x9FFF);
        proof {
            lemma_scalars_in_range(0x4E00, 0x9FFF);
            lemma_scalars_contiguous(0x4E00, 0x9FFF);
        }
        CharSet { name: String::from_str("Simplified Chinese"), glyphs }
    }

    /// Every set that exists can be drawn from.
    #[verifier::type_invariant]
    pub open spec fn well_formed(&self) -> bool {
        drawable(self@.glyphs)
    }

    /// The set's name.
    pub fn name(&self) -> (name: &str)
        ensures
            name@ == self@.name,
    {
        self.name.as_str()
    }

    /// How many glyphs the set holds.
    pub fn len(&self) -> (count: usize)
        ensures
            count == self@.glyphs.len(),
    {
        self.glyphs.len()
    }

    /// The glyph at `index`.
    pub fn glyph(&self, index: usize) -> (glyph: char)
        requires
            index < self@.glyphs.len(),
        ensures
            glyph == self@.glyphs[index as int],
    {
        self.glyphs[index]
    }

    /// Draws one glyph of the set at random.
    pub fn random_glyph(&self) -> (glyph: char)
        ensures
            self@.glyphs.contains(glyph),
            glyph != BLANK,
    {
        proof {
            use_type_invariant(self);
        }
        let index: usize = random_in(0, self.glyphs.len() - 1);
        self.glyphs[index]
    }
}

/// The English set can be drawn from.
proof fn lemma_english_drawable()
    ensures
        drawable(english_glyphs()),
{
    reveal_strlit("!@#$%^&*()_+-=[]{}|;:',.<>/?`~");
    lemma_scalars_in_range('a' as int, 'z' as int);
    lemma_scalars_in_range('A' as int, 'Z' as int);
    lemma_scalars_in_range('0' as int, '9' as int);
    lemma_scalars_contiguous('a' as int, 'z' as int);
}

/// Whether `sets` can make a registry: there is a set, every set can be
/// drawn from, and no name is used twice.
pub open spec fn registrable(sets: Seq<CharSetView>) -> bool {
    &&& sets.len() > 0
    &&& forall|i: int| 0 <= i < sets.len() ==> drawable((#[trigger] sets[i]).glyphs)
    &&& forall|i: int, j: int|
        0 <= i < j < sets.len() ==> (#[trigger] sets[i]).name != (#[trigger] sets[j]).name
}

/// The place of the set called `name` among `sets`, if there is one.
pub open spec fn position_of(sets: Seq<CharSetView>, name: Seq<char>) -> Option<int> {
    if exists|i: int| 0 <= i < sets.len() && (#[trigger] sets[i]).name == name {
        Some(choose|i: int| 0 <= i < sets.len() && (#[trigger] sets[i]).name == name)
    } else {
        None
    }
}

/// The views of the three sets that the standard registry holds, in order.
pub open spec fn standard_sets() -> Seq<CharSetView> {
    seq![
        CharSetView { name: "English"@, glyphs: english_glyphs() },
        CharSetView { name: "Traditional Chinese"@, glyphs: scalars_between(0x4E00, 0x9FA5) },
        CharSetView { name: "Simplified Chinese"@, glyphs: scalars_between(0x4E00, 0x9FFF) },
    ]
}

/// The character sets that a run can choose from, each under its own
/// name, in a fixed order. It is made once and never changes.
pub struct CharSetRegistry {
    sets: Vec<CharSet>,
}

impl View for CharSetRegistry {
    type V = Seq<CharSetView>;

    closed spec fn view(&self) -> Seq<CharSetView> {
        Seq::new(self.sets@.len(), |i: int| self.sets@[i]@)
    }
}

impl CharSetRegistry {
    /// A registry holds at least one set and no name twice.
    #[verifier::type_invariant]
    pub open spec fn well_formed(&self) -> bool {
        registrable(self@)
    }

    /// The registry of English, Traditional Chinese and Simplified Chinese.
    pub fn standard() -> (registry: CharSetRegistry)
        ensures
            registry@ == standard_sets(),
            registrable(registry@),
    {
        let mut sets: Vec<CharSet> = Vec::new();
        sets.push(CharSet::english());
        sets.push(CharSet::traditional_chinese());
        sets.push(CharSet::simplified_chinese());
        proof {
            reveal_strlit("English");
            reveal_strlit("Traditional Chinese");
            reveal_strlit("Simplified Chinese");
            assert("English"@.len() != "Traditional Chinese"@.len());
            assert("English"@.len() != "Simplified Chinese"@.len());
            assert("Traditional Chinese"@.len() != "Simplified Chinese"@.len());
            assert(Seq::new(sets@.len(), |i: int| sets@[i]@) =~= standard_sets());
        }
        CharSetRegistry { sets }
    }

    /// A registry of one set.
    pub fn single(set: CharSet) -> (registry: CharSetRegistry)
        ensures
            registry@ == seq![set@],
            registrable(registry@),
    {
        proof {
            use_type_invariant(&set);
        }
        let mut sets: Vec<CharSet> = Vec::new();
        sets.push(set);
        proof {
            assert(Seq::new(sets@.len(), |i: int| sets@[i]@) =~= seq![set@]);
        }
        CharSetRegistry { sets }
    }

    /// How many sets are registered.
    pub fn len(&self) -> (count: usize)
        ensures
            count == self@.len(),
            count > 0,
    {
        proof {
            use_type_invariant(self);
        }
        self.sets.len()
    }

    /// The set at `index`.
    pub fn set(&self, index: usize) -> (set: &CharSet)
        requires
            index < self@.len(),
        ensures
            set@ == self@[index as int],
    {
        &self.sets[index]
    }

    /// Where the set called `name` is registered, if it is.
    pub fn position(&self, name: &str) -> (found: Option<usize>)
        ensures
            match found {
                Some(index) => position_of(self@, name@) == Some(index as int),
                None => position_of(self@, name@) is None,
            },
            found matches Some(index) ==> index < self@.len() && self@[index as int].name == name@,
    {
        proof {
            use_type_invariant(self);
        }
        let wanted: String = String::from_str(name);
        let mut index: usize = 0;
        while index < self.sets.len()
            invariant
                index <= self.sets.len(),
                wanted@ == name@,
                registrable(self@),
                forall|i: int| 0 <= i < index ==> (#[trigger] self@[i]).name != name@,
            decreases self.sets.len() - index,
        {
            if self.sets[index].name == wanted {
                assert(self@[index as int].name == name@);
                return Some(index);
            }
            index = index + 1;
        }
        None
    }

    /// Draws one glyph at random from the set called `name`.
    pub fn random_glyph(&self, name: &str) -> (glyph: char)
        requires
            position_of(self@, name@) is Some,
        ensures
            self@[position_of(self@, name@).unwrap()].glyphs.contains(glyph),
            glyph != BLANK,
    {
        match self.position(name) {
            Some(index) => self.sets[index].random_glyph(),
            None => BLANK,
        }
    }
}

} // verus!
