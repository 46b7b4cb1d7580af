//! A single-line text-input widget: a character buffer with a cursor,
//! mutated by discrete key events.
//!
//! `input` turns one key event into exactly one of three outcomes —
//! text changed, cursor moved, or acknowledged without a change — or into
//! `None`, which means the editor has no opinion about the key and the
//! caller must pass it on to the next handler in the dispatch chain.

use vstd::prelude::*;

use crate::key::{Key, KeyCode, KeySequence};

verus! {

/// What a handled key event did to the editor.
#[derive(Debug, Clone, Copy, PartialEq, Eq)]
pub enum InputEffect {
    TextChanged,
    CursorMoved,
    /// The key had no effect, but it still counts as consumed by the input
    /// element — for instance, pressing backspace when there is no text —
    /// so that an outer dispatcher does not also act on it.
    Ack,
}

/// A single line of text plus a cursor offset into it.
///
/// The characters are stored one per Unicode scalar value; the cursor is an
/// offset between characters, kept within `0 ..= line.len()` by every
/// operation.
#[derive(Debug, Clone)]
pub struct LineInput {
    line: Vec<char>,
    cursor: usize,
}

impl View for LineInput {
    type V = Seq<char>;

    closed spec fn view(&self) -> Seq<char> {
        self.line@
    }
}

/// What one key event does to an editor state: the new text, the new cursor,
/// and the reported effect (`None` when the key is not an editing key and
/// must be propagated). This is the editor's whole key-handling table.
pub open spec fn editor_step(text: Seq<char>, cursor: int, key: Key) -> (Seq<char>, int, Option<
    InputEffect,
>) {
    match key {
        Key::Plain(code) => match code {
            KeyCode::Char(c) => (text.insert(cursor, c), cursor + 1, Some(InputEffect::TextChanged)),
            KeyCode::Backspace => if text.len() == 0 || cursor == 0 {
                (text, cursor, Some(InputEffect::Ack))
            } else {
                (text.remove(cursor - 1), cursor - 1, Some(InputEffect::TextChanged))
            },
            KeyCode::Left => if cursor == 0 {
                (text, cursor, Some(InputEffect::Ack))
            } else {
                (text, cursor - 1, Some(InputEffect::CursorMoved))
            },
            KeyCode::Right => if cursor == text.len() {
                (text, cursor, Some(InputEffect::Ack))
            } else {
                (text, cursor + 1, Some(InputEffect::CursorMoved))
            },
            _ => (text, cursor, None),
        },
        _ => (text, cursor, None),
    }
}

/// The keys this editor interprets itself: a plain printable character,
/// backspace, and the left and right arrows. Everything else falls through
/// to the next handler.
pub open spec fn is_editing_key(key: Key) -> bool {
    match key {
        Key::Plain(code) => code is Char || code is Backspace || code is Left || code is Right,
        _ => false,
    }
}

impl LineInput {
    /// The cursor offset, as a mathematical integer.
    pub closed spec fn spec_cursor(&self) -> int {
        self.cursor as int
    }

    /// The cursor always stays between the start and the end of the line.
    pub open spec fn wf(&self) -> bool {
        0 <= self.spec_cursor() <= self@.len()
    }

    /// A new editor over the given initial characters. The cursor starts at
    /// offset zero regardless of the seed's length.
    pub fn new(initial: Vec<char>) -> (r: Self)
        ensures
            r@ == initial@,
            r.spec_cursor() == 0,
            r.wf(),
    {
        LineInput { line: initial, cursor: 0 }
    }

    /// True iff the line holds no characters.
    pub fn is_empty(&self) -> (r: bool)
        ensures
            r == (self@.len() == 0),
    {
        self.line.len() == 0
    }

    /// The current cursor offset.
    pub fn cursor(&self) -> (r: usize)
        ensures
            r == self.spec_cursor(),
    {
        self.cursor
    }

    /// Handle one key event: the first key of the matched sequence decides.
    /// The editor changes exactly as `editor_step` says, and the cursor
    /// invariant still holds afterwards.
    pub fn input(&mut self, key_sequence: &KeySequence) -> (r: Option<InputEffect>)
        requires
            old(self).wf(),
            key_sequence.keys@.len() >= 1,
        ensures
            final(self).wf(),
            final(self)@ == editor_step(
                old(self)@,
                old(self).spec_cursor(),
                key_sequence.keys@[0],
            ).0,
            final(self).spec_cursor() == editor_step(
                old(self)@,
                old(self).spec_cursor(),
                key_sequence.keys@[0],
            ).1,
            r == editor_step(old(self)@, old(self).spec_cursor(), key_sequence.keys@[0]).2,
    {
        match key_sequence.keys[0] {
            Key::Plain(code) => match code {
                KeyCode::Char(c) => {
                    if self.cursor == self.line.len() {
                        self.line.push(c);
                        proof {
                            assert(self.line@ =~= old(self)@.insert(old(self).spec_cursor(), c));
                        }
                    } else {
                        self.line.insert(self.cursor, c);
                    }
                    // The line now holds one more character and its length
                    // fits in usize, so the cursor can follow it.
                    let _n: usize = self.line.len();
                    self.cursor = self.cursor + 1;
                    Some(InputEffect::TextChanged)
                },
                KeyCode::Backspace => {
                    if self.line.len() == 0 || self.cursor == 0 {
                        Some(InputEffect::Ack)
                    } else {
                        // Decrement first, then remove: this takes out the
                        // character immediately to the left of the cursor.
                        self.cursor = self.cursor - 1;
                        self.line.remove(self.cursor);
                        Some(InputEffect::TextChanged)
                    }
                },
                KeyCode::Left => {
                    if self.cursor == 0 {
                        Some(InputEffect::Ack)
                    } else {
                        self.cursor = self.cursor - 1;
                        Some(InputEffect::CursorMoved)
                    }
                },
                KeyCode::Right => {
                    if self.cursor == self.line.len() {
                        Some(InputEffect::Ack)
                    } else {
                        self.cursor = self.cursor + 1;
                        Some(InputEffect::CursorMoved)
                    }
                },
                _ => None,
            },
            _ => None,
        }
    }

    /// The line's text, in order, as a `String`.
    pub fn get_text(&self) -> (r: String)
        ensures
            r@ == self@,
    {
        let mut s = String::new();
        let mut i: usize = 0;
        while i < self.line.len()
            invariant
                0 <= i <= self.line@.len(),
                s@ == self.line@.subrange(0, i as int),
            decreases self.line@.len() - i,
        {
            s.push(self.line[i]);
            i = i + 1;
            proof {
                assert(s@ =~= self.line@.subrange(0, i as int));
            }
        }
        proof {
            assert(self.line@.subrange(0, self.line@.len() as int) =~= self.line@);
        }
        s
    }

    /// The three display segments a renderer draws when the editor is
    /// focused: the text before the cursor, the character under the cursor
    /// (a single space as placeholder when the cursor sits at the end of the
    /// line), and the text after it.
    pub fn cursor_segments(&self) -> (r: (String, String, String))
        requires
            self.wf(),
        ensures
            r.0@ == self@.subrange(0, self.spec_cursor()),
            self.spec_cursor() < self@.len() ==> r.1@ == seq![self@[self.spec_cursor()]]
                && r.2@ == self@.subrange(self.spec_cursor() + 1, self@.len() as int),
            self.spec_cursor() == self@.len() ==> r.1@ == seq![' '] && r.2@ == Seq::<
                char,
            >::empty(),
    {
        let mut before = String::new();
        let mut i: usize = 0;
        while i < self.cursor
            invariant
                0 <= i <= self.cursor <= self.line@.len(),
                before@ == self.line@.subrange(0, i as int),
            decreases self.cursor - i,
        {
            before.push(self.line[i]);
            i = i + 1;
            proof {
                assert(before@ =~= self.line@.subrange(0, i as int));
            }
        }
        let mut at = String::new();
        let mut after = String::new();
        if self.cursor == self.line.len() {
            at.push(' ');
            proof {
                assert(at@ =~= seq![' ']);
                assert(after@ =~= Seq::<char>::empty());
            }
        } else {
            at.push(self.line[self.cursor]);
            proof {
                assert(at@ =~= seq![self@[self.spec_cursor()]]);
            }
            let mut j: usize = self.cursor + 1;
            while j < self.line.len()
                invariant
                    self.spec_cursor() + 1 <= j <= self.line@.len(),
                    after@ == self.line@.subrange(self.spec_cursor() + 1, j as int),
                decreases self.line@.len() - j,
            {
                after.push(self.line[j]);
                j = j + 1;
                proof {
                    assert(after@ =~= self.line@.subrange(self.spec_cursor() + 1, j as int));
                }
            }
        }
        (before, at, after)
    }
}

impl Default for LineInput {
    /// An empty editor with the cursor at offset zero.
    fn default() -> (r: Self)
        ensures
            r@ == Seq::<char>::empty(),
            r.spec_cursor() == 0,
            r.wf(),
    {
        LineInput::new(Vec::new())
    }
}

/// Relies on `String::push`, which appends the given character to the end of
/// the string.
pub assume_specification[ String::push ](s: &mut String, ch: char)
    ensures
        final(s)@ == old(s)@.push(ch),
;

/// Handling any key event from any well-formed editor state leaves the
/// cursor between the start and the end of the text, so the invariant holds
/// after every `input` call of any sequence of key events.
pub proof fn lemma_editor_step_preserves_invariant(text: Seq<char>, cursor: int, key: Key)
    requires
        0 <= cursor <= text.len(),
    ensures
        ({
            let post = editor_step(text, cursor, key);
            0 <= post.1 <= post.0.len()
        }),
{
}

/// Delete-backward on an empty buffer is consumed without a change, and —
/// since nothing changed — doing it again, any number of times, yields
/// `Ack` again and still changes nothing.
pub proof fn lemma_backspace_on_empty_is_noop(text: Seq<char>, cursor: int)
    requires
        text.len() == 0,
        0 <= cursor <= text.len(),
    ensures
        editor_step(text, cursor, Key::Plain(KeyCode::Backspace)) == (
            text,
            cursor,
            Some(InputEffect::Ack),
        ),
        ({
            let once = editor_step(text, cursor, Key::Plain(KeyCode::Backspace));
            editor_step(once.0, once.1, Key::Plain(KeyCode::Backspace)) == (
                text,
                cursor,
                Some(InputEffect::Ack),
            )
        }),
{
}

/// Move-left at the start of the line and move-right at its end are
/// consumed without moving the cursor or touching the text.
pub proof fn lemma_boundary_moves_acknowledged(text: Seq<char>)
    ensures
        editor_step(text, 0, Key::Plain(KeyCode::Left)) == (text, 0int, Some(InputEffect::Ack)),
        editor_step(text, text.len() as int, Key::Plain(KeyCode::Right)) == (
            text,
            text.len() as int,
            Some(InputEffect::Ack),
        ),
{
}

/// A key the editor does not interpret — a modifier chord or any key code
/// outside character/backspace/left/right — is never handled and never
/// mutates the buffer: it must be propagated to the next handler.
pub proof fn lemma_unrecognized_key_not_handled(text: Seq<char>, cursor: int, key: Key)
    requires
        !is_editing_key(key),
    ensures
        editor_step(text, cursor, key) == (text, cursor, None::<InputEffect>),
{
}

} // verus!
