use vstd::prelude::*;
use vstd::utf8::encode_utf8;

verus! {

/// A line of text under edit, with the byte offset of its cursor.
#[derive(Debug)]
pub struct TextInput {
    pub text: String,
    pub cursor_position: usize,
}

/// What a [`TextInput`] holds: its characters and where the cursor stands.
#[verifier::ext_equal]
pub struct TextInputView {
    pub text: Seq<char>,
    pub cursor: nat,
}

impl View for TextInput {
    type V = TextInputView;

    open spec fn view(&self) -> TextInputView {
        TextInputView { text: self.text@, cursor: self.cursor_position as nat }
    }
}

impl TextInputView {
    /// No text, cursor at the start.
    pub open spec fn empty() -> TextInputView {
        TextInputView { text: Seq::empty(), cursor: 0 }
    }

    /// The given text with the cursor behind its last byte.
    pub open spec fn loaded(text: Seq<char>) -> TextInputView {
        TextInputView { text, cursor: encode_utf8(text).len() }
    }

    /// The cursor stands behind the last byte of the text.
    pub open spec fn cursor_at_end(self) -> bool {
        self.cursor == encode_utf8(self.text).len()
    }
}

impl TextInput {
    /// An input without text.
    pub fn new() -> (input: TextInput)
        ensures
            input@ == TextInputView::empty(),
    {
        TextInput { text: String::new(), cursor_position: 0 }
    }

    /// Drops the text and moves the cursor to the start.
    pub fn reset_input(&mut self)
        ensures
            final(self)@ == TextInputView::empty(),
    {
        self.text = String::new();
        self.cursor_position = 0;
    }

    /// Replaces the text and puts the cursor at its end.
    pub fn load(&mut self, text: &String)
        ensures
            final(self)@ == TextInputView::loaded(text@),
    {
        self.text = text.clone();
        self.cursor_position = text.as_str().as_bytes().len();
    }
}

} // verus!
