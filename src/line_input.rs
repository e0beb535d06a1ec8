use vstd::prelude::*;

use crate::model::{Key, KeyCode};

verus! {

/// A single line of editable text with a cursor.
#[derive(Clone, Debug, PartialEq, Eq)]
pub struct LineInput {
    pub line: Vec<char>,
    pub cursor: usize,
}

/// The text and cursor after a key, or `None` if the key is not an
/// editing key.
pub open spec fn input_step(line: Seq<char>, cursor: int, key: Key) -> Option<(Seq<char>, int)> {
    match key {
        Key::Plain(KeyCode::Char(c)) => Some((line.insert(cursor, c), cursor + 1)),
        Key::Plain(KeyCode::Backspace) => if cursor > 0 {
            Some((line.remove(cursor - 1), cursor - 1))
        } else {
            Some((line, cursor))
        },
        Key::Plain(KeyCode::Delete) => if cursor < line.len() {
            Some((line.remove(cursor), cursor))
        } else {
            Some((line, cursor))
        },
        Key::Plain(KeyCode::Left) => if cursor > 0 {
            Some((line, cursor - 1))
        } else {
            Some((line, cursor))
        },
        Key::Plain(KeyCode::Right) => if cursor < line.len() {
            Some((line, cursor + 1))
        } else {
            Some((line, cursor))
        },
        Key::Plain(KeyCode::Home) => Some((line, 0)),
        Key::Ctrl(KeyCode::Char('a')) => Some((line, 0)),
        Key::Plain(KeyCode::End) => Some((line, line.len() as int)),
        Key::Ctrl(KeyCode::Char('e')) => Some((line, line.len() as int)),
        _ => None,
    }
}

impl LineInput {
    pub open spec fn wf(&self) -> bool {
        self.cursor <= self.line@.len()
    }

    pub fn new() -> (r: LineInput)
        ensures
            r.wf(),
            r.line@ == Seq::<char>::empty(),
            r.cursor == 0,
    {
        LineInput { line: Vec::new(), cursor: 0 }
    }

    /// The current text.
    pub fn get_text(&self) -> (r: Vec<char>)
        ensures
            r@ == self.line@,
    {
        let mut r: Vec<char> = Vec::new();
        let mut i: usize = 0;
        while i < self.line.len()
            invariant
                i <= self.line@.len(),
                r@ == self.line@.subrange(0, i as int),
            decreases self.line@.len() - i,
        {
            r.push(self.line[i]);
            i = i + 1;
            assert(r@ =~= self.line@.subrange(0, i as int));
        }
        assert(self.line@.subrange(0, i as int) =~= self.line@);
        r
    }

    /// Applies an editing key; returns whether the key was consumed.
    pub fn input(&mut self, key: &Key) -> (r: bool)
        requires
            old(self).wf(),
            old(self).line@.len() < usize::MAX,
        ensures
            final(self).wf(),
            r == input_step(old(self).line@, old(self).cursor as int, *key) is Some,
            r ==> input_step(old(self).line@, old(self).cursor as int, *key) == Some(
                (final(self).line@, final(self).cursor as int),
            ),
            !r ==> *final(self) == *old(self),
    {
        match key {
            Key::Plain(KeyCode::Char(c)) => {
                self.line.insert(self.cursor, *c);
                self.cursor = self.cursor + 1;
            },
            Key::Plain(KeyCode::Backspace) => {
                if self.cursor > 0 {
                    self.line.remove(self.cursor - 1);
                    self.cursor = self.cursor - 1;
                }
            },
            Key::Plain(KeyCode::Delete) => {
                if self.cursor < self.line.len() {
                    self.line.remove(self.cursor);
                }
            },
            Key::Plain(KeyCode::Left) => {
                if self.cursor > 0 {
                    self.cursor = self.cursor - 1;
                }
            },
            Key::Plain(KeyCode::Right) => {
                if self.cursor < self.line.len() {
                    self.cursor = self.cursor + 1;
                }
            },
            Key::Plain(KeyCode::Home) => {
                self.cursor = 0;
            },
            Key::Plain(KeyCode::End) => {
                self.cursor = self.line.len();
            },
            Key::Ctrl(KeyCode::Char(c)) => {
                if *c == 'a' {
                    self.cursor = 0;
                } else if *c == 'e' {
                    self.cursor = self.line.len();
                } else {
                    return false;
                }
            },
            _ => {
                return false;
            },
        }
        true
    }
}

} // verus!
