//! The typing variant: words fall from the top on a fixed cadence and
//! the player types characters; once the typed buffer matches a falling
//! word, that word is killed and the buffer clears.

use vstd::prelude::*;
use crate::geometry::Position;
use crate::motion::sat_i32;
use crate::motion::step_coord;
use crate::random::random_in_range;

verus! {

/// How far a word falls per update.
pub const SPEED: i32 = 10;

/// A new word is created once every this many updates.
pub const ADD_TEXT_EVERY_MOV: usize = 2;

/// How many words the fixed list offers.
pub const WORD_COUNT: usize = 5;

/// The word with the given place in the fixed list.
pub open spec fn spec_word(index: int) -> Seq<char> {
    if index == 0 {
        seq!['h', 'e', 'l', 'l', 'o']
    } else if index == 1 {
        seq!['w', 'o', 'r', 'd']
    } else if index == 2 {
        seq!['h', 'o', 'p', 'e']
    } else if index == 3 {
        seq!['g', 'o', 'd']
    } else {
        seq!['t', 'h', 'i', 's', 'i', 's', 'f', 'i', 'n', 'e']
    }
}

/// A falling word: its position and its place in the fixed word list.
#[derive(Clone, Copy, PartialEq, Eq, Structural, Debug)]
pub struct Text {
    pub pos: Position,
    pub word: usize,
}

impl Text {
    /// Fall one step.
    pub fn mov(&mut self)
        ensures
            final(self).pos.x == old(self).pos.x,
            final(self).pos.y as int == sat_i32(old(self).pos.y + SPEED),
            final(self).word == old(self).word,
    {
        self.pos = Position { x: self.pos.x, y: step_coord(self.pos.y, 1, SPEED) };
    }
}

/// The characters of the word with the given place in the fixed list.
pub fn word_chars(index: usize) -> (w: Vec<char>)
    requires
        index < WORD_COUNT,
    ensures
        w@ == spec_word(index as int),
{
    let mut w: Vec<char> = Vec::new();
    if index == 0 {
        w.push('h');
        w.push('e');
        w.push('l');
        w.push('l');
        w.push('o');
        proof {
            assert(w@ =~= spec_word(index as int));
        }
        return w;
    }
    if index == 1 {
        w.push('w');
        w.push('o');
        w.push('r');
        w.push('d');
        proof {
            assert(w@ =~= spec_word(index as int));
        }
        return w;
    }
    if index == 2 {
        w.push('h');
        w.push('o');
        w.push('p');
        w.push('e');
        proof {
            assert(w@ =~= spec_word(index as int));
        }
        return w;
    }
    if index == 3 {
        w.push('g');
        w.push('o');
        w.push('d');
        proof {
            assert(w@ =~= spec_word(index as int));
        }
        return w;
    }
    w.push('t');
    w.push('h');
    w.push('i');
    w.push('s');
    w.push('i');
    w.push('s');
    w.push('f');
    w.push('i');
    w.push('n');
    w.push('e');
    proof {
        assert(w@ =~= spec_word(index as int));
    }
    w
}

/// Whether two character lists hold the same characters.
fn chars_equal(a: &Vec<char>, b: &Vec<char>) -> (r: bool)
    ensures
        r == (a@ == b@),
{
    if a.len() != b.len() {
        proof {
            assert(a@.len() != b@.len());
        }
        return false;
    }
    let mut i: usize = 0;
    while i < a.len()
        invariant
            i <= a@.len(),
            a@.len() == b@.len(),
            forall|j: int| 0 <= j < i ==> a@[j] == b@[j],
        decreases a@.len() - i,
    {
        if a[i] != b[i] {
            return false;
        }
        i = i + 1;
    }
    proof {
        assert(a@ =~= b@);
    }
    true
}

/// The first position whose word the typed buffer matches.
pub open spec fn spec_first_match(texts: Seq<Text>, current: Seq<char>) -> Option<int> {
    if exists|i: int| 0 <= i < texts.len() && current == spec_word(texts[i].word as int) {
        Some(choose|i: int| 0 <= i < texts.len() && current == spec_word(texts[i].word as int)
            && forall|j: int| 0 <= j < i ==> current != spec_word(#[trigger] texts[j].word as int))
    } else {
        None
    }
}

pub struct Game {
    pub width: i32,
    pub texts: Vec<Text>,
    pub last_added: usize,
    pub current_text: Vec<char>,
}

pub open spec fn game_wf(g: Game) -> bool {
    &&& 402 <= g.width
    &&& g.last_added <= ADD_TEXT_EVERY_MOV
    &&& forall|i: int| 0 <= i < g.texts@.len() ==> (#[trigger] g.texts@[i]).word < WORD_COUNT
}

impl Game {
    /// A fresh game on a field of the given width: no words yet and an
    /// empty typed buffer.
    pub fn new(width: i32) -> (g: Game)
        requires
            402 <= width,
        ensures
            game_wf(g),
            g.width == width,
            g.texts@.len() == 0,
            g.last_added == 0,
            g.current_text@.len() == 0,
    {
        Game { width, texts: Vec::new(), last_added: 0, current_text: Vec::new() }
    }

    /// One more word enters at the top band, at a random column within
    /// the left half, drawn from the fixed list.
    pub fn add_text(&mut self)
        requires
            game_wf(*old(self)),
        ensures
            game_wf(*final(self)),
            final(self).texts@.len() == old(self).texts@.len() + 1,
            final(self).texts@.subrange(0, old(self).texts@.len() as int) == old(self).texts@,
            final(self).texts@.last().pos.y == 100,
            100 <= final(self).texts@.last().pos.x < old(self).width / 2 - 100,
            final(self).texts@.last().word < WORD_COUNT,
            final(self).current_text@ == old(self).current_text@,
            final(self).last_added == old(self).last_added,
            final(self).width == old(self).width,
    {
        let y: i32 = 100;
        let hi = (self.width / 2 - 100) as i64;
        let x = random_in_range(100, hi) as i32;
        let word = random_in_range(0, WORD_COUNT as i64) as usize;

        let text = Text { pos: Position { x, y }, word };
        self.texts.push(text);
        proof {
            assert(self.texts@.subrange(0, old(self).texts@.len() as int) =~= old(self).texts@);
        }
    }

    /// Append one typed character; if the buffer now matches a falling
    /// word, that word is killed and the buffer clears.
    pub fn add_character(&mut self, character: char)
        requires
            game_wf(*old(self)),
        ensures
            game_wf(*final(self)),
            final(self).last_added == old(self).last_added,
            final(self).width == old(self).width,
            ({
                let typed = old(self).current_text@.push(character);
                match spec_first_match(old(self).texts@, typed) {
                    Some(i) => final(self).texts@ == old(self).texts@.remove(i)
                        && final(self).current_text@.len() == 0,
                    None => final(self).texts@ == old(self).texts@
                        && final(self).current_text@ == typed,
                }
            }),
    {
        self.current_text.push(character);
        let killed = self.kill_text();

        if killed {
            self.reset();
        }
    }

    /// Clear the typed buffer.
    pub fn reset(&mut self)
        ensures
            final(self).current_text@.len() == 0,
            final(self).texts@ == old(self).texts@,
            final(self).last_added == old(self).last_added,
            final(self).width == old(self).width,
    {
        self.current_text = Vec::new();
    }

    /// Kill the first falling word the typed buffer matches, if any.
    pub fn kill_text(&mut self) -> (killed: bool)
        requires
            game_wf(*old(self)),
        ensures
            game_wf(*final(self)),
            final(self).current_text@ == old(self).current_text@,
            final(self).last_added == old(self).last_added,
            final(self).width == old(self).width,
            match spec_first_match(old(self).texts@, old(self).current_text@) {
                Some(i) => killed && final(self).texts@ == old(self).texts@.remove(i),
                None => !killed && final(self).texts@ == old(self).texts@,
            },
    {
        let ghost g0 = *self;
        let mut i: usize = 0;
        while i < self.texts.len()
            invariant
                *self == g0,
                g0 == *old(self),
                game_wf(g0),
                i <= g0.texts@.len(),
                forall|j: int|
                    0 <= j < i ==> g0.current_text@ != spec_word(
                        #[trigger] g0.texts@[j].word as int,
                    ),
            decreases g0.texts@.len() - i,
        {
            let word = word_chars(self.texts[i].word);

            if chars_equal(&word, &self.current_text) {
                proof {
                    let typed = g0.current_text@;
                    assert(typed == spec_word(g0.texts@[i as int].word as int));
                    assert(0 <= i < g0.texts@.len() && typed == spec_word(
                        g0.texts@[i as int].word as int,
                    ) && forall|j: int|
                        0 <= j < i ==> typed != spec_word(#[trigger] g0.texts@[j].word as int));
                    let w = choose|w: int|
                        0 <= w < g0.texts@.len() && typed == spec_word(g0.texts@[w].word as int)
                            && forall|j: int|
                            0 <= j < w ==> typed != spec_word(#[trigger] g0.texts@[j].word as int);
                    assert(spec_first_match(g0.texts@, typed) == Some(w));
                    assert(!(w < i) && !(i < w));
                }
                self.texts.remove(i);
                proof {
                    assert forall|j: int| 0 <= j < self.texts@.len() implies (
                    #[trigger] self.texts@[j]).word < WORD_COUNT by {
                        if j < i {
                            assert(self.texts@[j] == g0.texts@[j]);
                        } else {
                            assert(self.texts@[j] == g0.texts@[j + 1]);
                        }
                    }
                }
                return true;
            }
            i = i + 1;
        }
        proof {
            assert(spec_first_match(g0.texts@, g0.current_text@) is None);
        }
        false
    }

    /// Every falling word drops one step.
    pub fn mov_texts(&mut self)
        ensures
            final(self).texts@.len() == old(self).texts@.len(),
            forall|j: int|
                0 <= j < old(self).texts@.len() ==> final(self).texts@[j].word
                    == old(self).texts@[j].word
                    && final(self).texts@[j].pos.x == old(self).texts@[j].pos.x
                    && final(self).texts@[j].pos.y as int == sat_i32(
                    old(self).texts@[j].pos.y + SPEED,
                ),
            final(self).current_text@ == old(self).current_text@,
            final(self).last_added == old(self).last_added,
            final(self).width == old(self).width,
    {
        let ghost g0 = *self;
        let mut i: usize = 0;
        while i < self.texts.len()
            invariant
                i <= g0.texts@.len(),
                self.texts@.len() == g0.texts@.len(),
                self.current_text@ == g0.current_text@,
                self.last_added == g0.last_added,
                self.width == g0.width,
                forall|j: int|
                    0 <= j < i ==> self.texts@[j].word == g0.texts@[j].word && self.texts@[j].pos.x
                        == g0.texts@[j].pos.x && self.texts@[j].pos.y as int == sat_i32(
                        g0.texts@[j].pos.y + SPEED,
                    ),
                forall|j: int| i <= j < g0.texts@.len() ==> self.texts@[j] == g0.texts@[j],
            decreases g0.texts@.len() - i,
        {
            let mut t = self.texts[i];
            t.mov();
            self.texts[i] = t;
            i = i + 1;
        }
    }

    /// One update tick: the words fall and the spawn cadence advances;
    /// when it fires, a new random word enters.
    pub fn mov(&mut self)
        requires
            game_wf(*old(self)),
        ensures
            game_wf(*final(self)),
            final(self).current_text@ == old(self).current_text@,
            final(self).width == old(self).width,
            old(self).last_added + 1 <= ADD_TEXT_EVERY_MOV ==> final(self).texts@.len()
                == old(self).texts@.len() && final(self).last_added == old(self).last_added + 1,
            old(self).last_added + 1 > ADD_TEXT_EVERY_MOV ==> final(self).texts@.len()
                == old(self).texts@.len() + 1 && final(self).last_added == 0,
    {
        self.mov_texts();
        self.last_added = self.last_added + 1;

        if self.last_added > ADD_TEXT_EVERY_MOV {
            self.last_added = 0;
            self.add_text();
        }
    }

    /// A random word from the fixed list.
    pub fn random_word() -> (w: Vec<char>)
        ensures
            exists|i: int| 0 <= i < WORD_COUNT && w@ == spec_word(i),
    {
        let index = random_in_range(0, WORD_COUNT as i64) as usize;
        word_chars(index)
    }
}

} // verus!
