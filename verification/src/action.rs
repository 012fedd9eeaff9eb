//! The action vocabulary: the closed set of intents that input handling can
//! produce and the dispatcher consumes, together with the key model that the
//! input router reads.

use vstd::prelude::*;

verus! {

/// A key press, reduced to what the router distinguishes.
#[derive(Clone, Copy, PartialEq, Eq, Structural, Debug)]
pub enum Key {
    Char(char),
    Enter,
    Backspace,
    Tab,
    Other,
}

/// One intent. Actions carry owned values, never references into live state,
/// so they stay valid after the state that produced them changes.
pub enum Action {
    Refresh,
    Quit,
    CursorUp,
    CursorDown,
    CursorToFirst,
    CursorToLast,
    ToggleMark,
    SwitchSrc,
    DuplicateDir,
    ChangeDir(String),
    ChangeDirToParent(String),
    Execute(String),
    Edit(String),
    StartSearch,
    EndSearch,
    Search(String),
    Copy,
    Move,
    Delete,
    StartCreateDir,
    StartRename(String),
    EndInputText(Option<String>),
    OpenBookmarks,
    CloseBookmarks(Option<String>),
}

/// The mathematical shape of an action: paths and names as character
/// sequences.
#[verifier::ext_equal]
pub ghost enum ActionV {
    Refresh,
    Quit,
    CursorUp,
    CursorDown,
    CursorToFirst,
    CursorToLast,
    ToggleMark,
    SwitchSrc,
    DuplicateDir,
    ChangeDir(Seq<char>),
    ChangeDirToParent(Seq<char>),
    Execute(Seq<char>),
    Edit(Seq<char>),
    StartSearch,
    EndSearch,
    Search(Seq<char>),
    Copy,
    Move,
    Delete,
    StartCreateDir,
    StartRename(Seq<char>),
    EndInputText(Option<Seq<char>>),
    OpenBookmarks,
    CloseBookmarks(Option<Seq<char>>),
}

impl View for Action {
    type V = ActionV;

    open spec fn view(&self) -> ActionV {
        match self {
            Action::Refresh => ActionV::Refresh,
            Action::Quit => ActionV::Quit,
            Action::CursorUp => ActionV::CursorUp,
            Action::CursorDown => ActionV::CursorDown,
            Action::CursorToFirst => ActionV::CursorToFirst,
            Action::CursorToLast => ActionV::CursorToLast,
            Action::ToggleMark => ActionV::ToggleMark,
            Action::SwitchSrc => ActionV::SwitchSrc,
            Action::DuplicateDir => ActionV::DuplicateDir,
            Action::ChangeDir(p) => ActionV::ChangeDir(p@),
            Action::ChangeDirToParent(p) => ActionV::ChangeDirToParent(p@),
            Action::Execute(p) => ActionV::Execute(p@),
            Action::Edit(p) => ActionV::Edit(p@),
            Action::StartSearch => ActionV::StartSearch,
            Action::EndSearch => ActionV::EndSearch,
            Action::Search(p) => ActionV::Search(p@),
            Action::Copy => ActionV::Copy,
            Action::Move => ActionV::Move,
            Action::Delete => ActionV::Delete,
            Action::StartCreateDir => ActionV::StartCreateDir,
            Action::StartRename(n) => ActionV::StartRename(n@),
            Action::EndInputText(o) => ActionV::EndInputText(
                match o {
                    Option::Some(s) => Option::Some(s@),
                    Option::None => Option::None,
                },
            ),
            Action::OpenBookmarks => ActionV::OpenBookmarks,
            Action::CloseBookmarks(o) => ActionV::CloseBookmarks(
                match o {
                    Option::Some(s) => Option::Some(s@),
                    Option::None => Option::None,
                },
            ),
        }
    }
}

/// The view of an optional action.
pub open spec fn opt_action_view(o: Option<Action>) -> Option<ActionV> {
    match o {
        Option::Some(a) => Option::Some(a@),
        Option::None => Option::None,
    }
}

} // verus!
