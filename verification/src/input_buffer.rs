//! The text entry channel: the buffer behind the search field.

use vstd::prelude::*;
use crate::events::Key;
use crate::select_events::{SelectEvent, SelectResponse};
use crate::text::{join, splice};

verus! {

/// Mathematical model of an [`InputBuffer`]: the text as a sequence of
/// characters and the cursor as a position between them.
pub struct InputBufferView {
    pub value: Seq<char>,
    pub cursor: nat,
}

impl InputBufferView {
    /// The cursor stands at or before the end of the text.
    pub open spec fn wf(self) -> bool {
        self.cursor <= self.value.len()
    }

    /// The empty buffer.
    pub open spec fn empty() -> InputBufferView {
        InputBufferView { value: Seq::empty(), cursor: 0 }
    }

    /// The buffer after one key, and the event that the key emits.
    pub open spec fn key_stroke(self, key: Key) -> (InputBufferView, SelectEvent) {
        match key {
            Key::Char(c) => if c != '\n' {
                (
                    InputBufferView {
                        value: self.value.insert(self.cursor as int, c),
                        cursor: self.cursor + 1,
                    },
                    SelectEvent::Nothing,
                )
            } else {
                (self, SelectEvent::Search { name: Seq::empty(), value: self.value })
            },
            Key::Backspace => if self.cursor > 0 {
                (
                    InputBufferView {
                        value: self.value.remove(self.cursor - 1),
                        cursor: (self.cursor - 1) as nat,
                    },
                    SelectEvent::Nothing,
                )
            } else {
                (self, SelectEvent::Nothing)
            },
            Key::Left => (
                InputBufferView {
                    cursor: if self.cursor > 0 {
                        (self.cursor - 1) as nat
                    } else {
                        self.cursor
                    },
                    ..self
                },
                SelectEvent::Nothing,
            ),
            Key::Right => (
                InputBufferView {
                    cursor: if self.cursor < self.value.len() {
                        self.cursor + 1
                    } else {
                        self.cursor
                    },
                    ..self
                },
                SelectEvent::Nothing,
            ),
            Key::Delete => if self.cursor < self.value.len() {
                (
                    InputBufferView { value: self.value.remove(self.cursor as int), ..self },
                    SelectEvent::Nothing,
                )
            } else {
                (self, SelectEvent::Nothing)
            },
            Key::End => (
                InputBufferView { cursor: self.value.len(), ..self },
                SelectEvent::Nothing,
            ),
            Key::Home => (InputBufferView { cursor: 0, ..self }, SelectEvent::Nothing),
            _ => (self, SelectEvent::Nothing),
        }
    }
}

/// The text of the search field and the cursor in it, counted in
/// characters.
pub struct InputBuffer {
    pub value: String,
    pub cursor: usize,
}

impl View for InputBuffer {
    type V = InputBufferView;

    open spec fn view(&self) -> InputBufferView {
        InputBufferView { value: self.value@, cursor: self.cursor as nat }
    }
}

impl InputBuffer {
    /// An empty buffer with the cursor at its start.
    pub fn new() -> (buffer: InputBuffer)
        ensures
            buffer@ == InputBufferView::empty(),
            buffer@.wf(),
    {
        InputBuffer { value: String::new(), cursor: 0 }
    }

    /// Whether the cursor stands inside the text.
    pub fn is_valid(&self) -> (valid: bool)
        ensures
            valid == self@.wf(),
    {
        self.cursor <= self.value.as_str().unicode_len()
    }

    /// Consumes one key of the text entry channel.
    ///
    /// A character other than a line feed is inserted at the cursor, which
    /// moves past it. Backspace and Delete remove the character before and
    /// after the cursor, where there is one. Left, Right, Home and End move
    /// the cursor inside the text. A line feed submits: the buffer is left
    /// as it is and its text comes back in a `Search` event. Every other
    /// key is ignored.
    pub fn key_stroke(&mut self, key: Key) -> (response: SelectResponse)
        requires
            old(self)@.wf(),
        ensures
            final(self)@ == old(self)@.key_stroke(key).0,
            response@ == old(self)@.key_stroke(key).1,
            final(self)@.wf(),
    {
        let len = self.value.as_str().unicode_len();
        match key {
            Key::Char(c) => {
                if c != '\n' {
                    let text = splice(
                        self.value.as_str().substring_char(0, self.cursor),
                        c,
                        self.value.as_str().substring_char(self.cursor, len),
                    );
                    assert(text@ =~= self.value@.insert(self.cursor as int, c));
                    // The text is one character longer now, so the cursor can
                    // follow the character without leaving the text.
                    let end = text.as_str().unicode_len();
                    self.value = text;
                    if self.cursor < end {
                        self.cursor = self.cursor + 1;
                    }
                    SelectResponse::Nothing
                } else {
                    SelectResponse::Search { name: String::new(), value: self.value.clone() }
                }
            },
            Key::Backspace => {
                if self.cursor > 0 {
                    let text = join(
                        self.value.as_str().substring_char(0, self.cursor - 1),
                        self.value.as_str().substring_char(self.cursor, len),
                    );
                    assert(text@ =~= self.value@.remove(self.cursor - 1));
                    self.value = text;
                    self.cursor = self.cursor - 1;
                }
                SelectResponse::Nothing
            },
            Key::Left => {
                if self.cursor > 0 {
                    self.cursor = self.cursor - 1;
                }
                SelectResponse::Nothing
            },
            Key::Right => {
                if self.cursor < len {
                    self.cursor = self.cursor + 1;
                }
                SelectResponse::Nothing
            },
            Key::Delete => {
                if self.cursor < len {
                    let text = join(
                        self.value.as_str().substring_char(0, self.cursor),
                        self.value.as_str().substring_char(self.cursor + 1, len),
                    );
                    assert(text@ =~= self.value@.remove(self.cursor as int));
                    self.value = text;
                }
                SelectResponse::Nothing
            },
            Key::End => {
                self.cursor = len;
                SelectResponse::Nothing
            },
            Key::Home => {
                self.cursor = 0;
                SelectResponse::Nothing
            },
            _ => SelectResponse::Nothing,
        }
    }
}

impl InputBufferView {
    /// The buffer after the characters of `text` have been typed one by
    /// one.
    pub open spec fn typed(self, text: Seq<char>) -> InputBufferView
        decreases text.len(),
    {
        if text.len() == 0 {
            self
        } else {
            self.typed(text.drop_last()).key_stroke(Key::Char(text.last())).0
        }
    }
}

/// The round trip of text entry. Typing a text without line feeds into an
/// empty buffer, character by character, leaves the buffer holding that
/// text with the cursor at its end; the line feed that follows submits
/// exactly that text, under an empty name, and leaves the buffer as it is.
pub proof fn law_typing_round_trip(text: Seq<char>)
    requires
        forall|i: int| 0 <= i < text.len() ==> text[i] != '\n',
    ensures
        InputBufferView::empty().typed(text) == (InputBufferView {
            value: text,
            cursor: text.len(),
        }),
        InputBufferView::empty().typed(text).key_stroke(Key::Char('\n')) == (
            InputBufferView { value: text, cursor: text.len() },
            SelectEvent::Search { name: Seq::empty(), value: text },
        ),
    decreases text.len(),
{
    if text.len() > 0 {
        let front = text.drop_last();
        law_typing_round_trip(front);
        assert(front.insert(front.len() as int, text.last()) =~= text);
    } else {
        assert(text =~= Seq::empty());
    }
}

/// Backspace undoes typing. In a buffer whose cursor stands inside its
/// text, typing a character other than a line feed and pressing Backspace
/// leaves the buffer as it was.
pub proof fn law_backspace_undoes_typing(buffer: InputBufferView, c: char)
    requires
        buffer.wf(),
        c != '\n',
    ensures
        buffer.key_stroke(Key::Char(c)).0.key_stroke(Key::Backspace).0 == buffer,
{
    assert(buffer.value.insert(buffer.cursor as int, c).remove(buffer.cursor as int)
        =~= buffer.value);
}

} // verus!
