//! The bookmark overlay: an ordered list of paths addressed by the letters
//! `a` to `z`. Any key closes it; a letter within range closes it with the
//! bookmarked path.

use vstd::prelude::*;
use crate::action::Action;
use crate::action::ActionV;
use crate::action::Key;
use crate::action::opt_action_view;
use crate::config::Config;
use vstd::string::StrSliceExecFns;

verus! {

/// The letters that address bookmarks, in order.
pub open spec fn alphabet() -> Seq<char> {
    "abcdefghijklmnopqrstuvwxyz"@
}

/// The bookmark index a letter addresses: its distance from `a`, for the
/// lowercase letters only.
pub open spec fn letter_index(c: char) -> Option<int> {
    if 'a' as u32 <= c as u32 <= 'z' as u32 {
        Option::Some(c as u32 - 'a' as u32)
    } else {
        Option::None
    }
}

/// The letter that addresses bookmark `i`.
pub fn index_to_alphabet(i: usize) -> (r: char)
    requires
        i < 26,
    ensures
        r == alphabet()[i as int],
{
    let letters = "abcdefghijklmnopqrstuvwxyz";
    proof {
        reveal_strlit("abcdefghijklmnopqrstuvwxyz");
    }
    letters.get_char(i)
}

/// The bookmark index a letter addresses, if it is a lowercase letter.
pub fn alphabet_to_index(c: char) -> (r: Option<usize>)
    ensures
        match r {
            Option::Some(i) => letter_index(c) == Option::Some(i as int),
            Option::None => letter_index(c) is None,
        },
{
    let cu = c as u32;
    if 'a' as u32 <= cu && cu <= 'z' as u32 {
        Some((cu - 'a' as u32) as usize)
    } else {
        None
    }
}

/// The bookmark overlay: the configured list, captured on opening.
pub struct Bookmarks {
    pub bookmarks: Option<Vec<String>>,
}

/// The mathematical shape of the bookmark overlay.
#[verifier::ext_equal]
pub ghost struct BookmarksV {
    pub bookmarks: Option<Seq<Seq<char>>>,
}

impl View for Bookmarks {
    type V = BookmarksV;

    open spec fn view(&self) -> BookmarksV {
        BookmarksV {
            bookmarks: match self.bookmarks {
                Option::Some(ref b) => Option::Some(b.deep_view()),
                Option::None => Option::None,
            },
        }
    }
}

/// The closing action the overlay answers to a key: a lowercase letter
/// within the list's range closes with that path; any other key, an
/// out-of-range letter, or an absent list closes with nothing.
pub open spec fn bookmark_action(b: BookmarksV, key: Key) -> ActionV {
    match b.bookmarks {
        Option::None => ActionV::CloseBookmarks(Option::None),
        Option::Some(list) => match key {
            Key::Char(c) => match letter_index(c) {
                Option::Some(i) => if i < list.len() {
                    ActionV::CloseBookmarks(Option::Some(list[i]))
                } else {
                    ActionV::CloseBookmarks(Option::None)
                },
                Option::None => ActionV::CloseBookmarks(Option::None),
            },
            _ => ActionV::CloseBookmarks(Option::None),
        },
    }
}

/// Copies a list of strings.
fn clone_strings(v: &Vec<String>) -> (r: Vec<String>)
    ensures
        r@ == v@,
{
    let mut r: Vec<String> = Vec::new();
    let n = v.len();
    let mut i: usize = 0;
    while i < n
        invariant
            i <= n,
            n == v.len(),
            r@ == v@.take(i as int),
        decreases n - i,
    {
        r.push(v[i].clone());
        proof {
            assert(r@ =~= v@.take(i + 1 as int));
        }
        i = i + 1;
    }
    proof {
        assert(v@.take(n as int) =~= v@);
    }
    r
}

impl Bookmarks {
    /// Captures the configured bookmark list.
    pub fn new(config: &Config) -> (b: Bookmarks)
        ensures
            b@.bookmarks == config@.bookmarks,
    {
        match &config.bookmarks {
            None => Bookmarks { bookmarks: None },
            Some(list) => Bookmarks { bookmarks: Some(clone_strings(list)) },
        }
    }

    /// Consumes one key: always closes the overlay, with a path when a
    /// letter within range was pressed.
    pub fn on_event(&self, key: &Key) -> (r: Option<Action>)
        ensures
            opt_action_view(r) == Some(bookmark_action(self@, *key)),
    {
        match &self.bookmarks {
            Some(list) => match key {
                Key::Char(c) => match alphabet_to_index(*c) {
                    Some(i) => {
                        if i < list.len() {
                            Some(Action::CloseBookmarks(Some(list[i].clone())))
                        } else {
                            Some(Action::CloseBookmarks(None))
                        }
                    },
                    None => Some(Action::CloseBookmarks(None)),
                },
                _ => Some(Action::CloseBookmarks(None)),
            },
            None => Some(Action::CloseBookmarks(None)),
        }
    }
}

} // verus!
