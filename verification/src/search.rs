//! The search-line overlay: accumulates a pattern and emits an incremental
//! search on every edit; any other key closes the line.

use vstd::prelude::*;
use crate::action::Action;
use crate::action::ActionV;
use crate::action::Key;
use crate::action::opt_action_view;
use crate::input::input_value_step;

verus! {

/// The search line: the pattern typed so far.
pub struct SearchLine {
    pub pattern: String,
}

/// The mathematical shape of the search line.
#[verifier::ext_equal]
pub ghost struct SearchLineV {
    pub pattern: Seq<char>,
}

impl View for SearchLine {
    type V = SearchLineV;

    open spec fn view(&self) -> SearchLineV {
        SearchLineV { pattern: self.pattern@ }
    }
}

/// The action the search line answers to a key over its current pattern:
/// every key is consumed; editing keys search with the edited pattern, any
/// other key ends the search.
pub open spec fn search_line_action(v: Seq<char>, key: Key) -> ActionV {
    match key {
        Key::Char(_) => ActionV::Search(input_value_step(v, key)),
        Key::Backspace => ActionV::Search(input_value_step(v, key)),
        _ => ActionV::EndSearch,
    }
}

impl SearchLine {
    /// An empty search line.
    pub fn new() -> (s: SearchLine)
        ensures
            s@.pattern.len() == 0,
    {
        SearchLine { pattern: String::new() }
    }

    /// Consumes one key: never declines.
    pub fn on_event(&mut self, key: &Key) -> (r: Option<Action>)
        ensures
            final (self)@.pattern == input_value_step(old(self)@.pattern, *key),
            opt_action_view(r) == Some(search_line_action(old(self)@.pattern, *key)),
    {
        match key {
            Key::Char(c) => {
                self.pattern.push(*c);
                Some(Action::Search(self.pattern.clone()))
            },
            Key::Backspace => {
                let _ = self.pattern.pop();
                Some(Action::Search(self.pattern.clone()))
            },
            _ => Some(Action::EndSearch),
        }
    }
}

} // verus!
