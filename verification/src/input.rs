//! The text-input overlay: a one-line editor with a fixed prompt, used for
//! naming a new directory and for renaming an entry. While active it
//! consumes every key.

use vstd::prelude::*;
use crate::action::Action;
use crate::action::ActionV;
use crate::action::Key;
use crate::action::opt_action_view;

verus! {

/// A one-line text input: a prompt and the value typed so far.
pub struct InputBox {
    pub prefix: String,
    pub value: String,
}

/// The mathematical shape of a text input.
#[verifier::ext_equal]
pub ghost struct InputBoxV {
    pub prefix: Seq<char>,
    pub value: Seq<char>,
}

impl View for InputBox {
    type V = InputBoxV;

    open spec fn view(&self) -> InputBoxV {
        InputBoxV { prefix: self.prefix@, value: self.value@ }
    }
}

/// The edited text after one key: a character is appended, a backspace
/// removes the last character, any other key leaves the text.
pub open spec fn input_value_step(v: Seq<char>, key: Key) -> Seq<char> {
    match key {
        Key::Char(c) => v.push(c),
        Key::Backspace => if v.len() > 0 {
            v.drop_last()
        } else {
            v
        },
        _ => v,
    }
}

/// The action a text input answers to a key over its current value: every
/// key is consumed; editing keys refresh the view, Enter finalizes with the
/// text, any other key cancels.
pub open spec fn input_action(v: Seq<char>, key: Key) -> ActionV {
    match key {
        Key::Char(_) => ActionV::Refresh,
        Key::Backspace => ActionV::Refresh,
        Key::Enter => ActionV::EndInputText(Option::Some(v)),
        _ => ActionV::EndInputText(Option::None),
    }
}

impl InputBox {
    /// An empty input under the given prompt.
    pub fn new(prefix: String) -> (b: InputBox)
        ensures
            b@.prefix == prefix@,
            b@.value.len() == 0,
    {
        InputBox { prefix, value: String::new() }
    }

    /// An input under the given prompt, pre-filled with a value.
    pub fn new_with_default(prefix: String, value: String) -> (b: InputBox)
        ensures
            b@.prefix == prefix@,
            b@.value == value@,
    {
        InputBox { prefix, value }
    }

    /// Consumes one key: never declines.
    pub fn on_event(&mut self, key: &Key) -> (r: Option<Action>)
        ensures
            final (self)@.prefix == old(self)@.prefix,
            final (self)@.value == input_value_step(old(self)@.value, *key),
            opt_action_view(r) == Some(input_action(old(self)@.value, *key)),
    {
        match key {
            Key::Char(c) => {
                self.value.push(*c);
                Some(Action::Refresh)
            },
            Key::Backspace => {
                let _ = self.value.pop();
                Some(Action::Refresh)
            },
            Key::Enter => Some(Action::EndInputText(Some(self.value.clone()))),
            _ => Some(Action::EndInputText(None)),
        }
    }
}

} // verus!
