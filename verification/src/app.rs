//! The dispatcher: two panes, one active; a modal overlay owning input while
//! present; and `apply`-style dispatch that first lets the active pane act,
//! then applies the global effects. Work that needs the filesystem, a
//! process or a thread is returned as effects for the caller to perform.

use vstd::prelude::*;
use vstd::string::StringExecFns;
use crate::action::Action;
use crate::action::ActionV;
use crate::action::Key;
use crate::action::opt_action_view;
use crate::bookmark::Bookmarks;
use crate::bookmark::BookmarksV;
use crate::bookmark::bookmark_action;
use crate::config::Config;
use crate::config::ConfigV;
use crate::config::RunCommand;
use crate::config::RunCommandV;
use crate::dir::BulkOp;
use crate::dir::Dir;
use crate::dir::DirV;
use crate::dir::Entry;
use crate::dir::Job;
use crate::dir::JobV;
use crate::dir::clone_entries;
use crate::dir::dir_step;
use crate::dir::dispatch_run;
use crate::dir::entries_sorted;
use crate::dir::index_selection;
use crate::dir::job_views;
use crate::dir::key_action;
use crate::dir::planned_jobs;
use crate::dir::search_step;
use crate::dir::unmark_all;
use crate::input::InputBox;
use crate::input::InputBoxV;
use crate::input::input_action;
use crate::input::input_value_step;
use crate::search::SearchLine;
use crate::search::SearchLineV;
use crate::search::search_line_action;
use crate::text::join_path;
use crate::text::parent_dir;
use crate::text::parent_of;
use vstd::math::min;

verus! {

/// What a text input is for.
#[derive(Clone, Copy, PartialEq, Eq, Structural, Debug)]
pub enum InputMode {
    CreateDir,
    Rename,
}

/// The modal overlay: at most one is active, which the single variant
/// enforces structurally. While active it owns input routing.
pub enum Overlay {
    Inactive,
    Input { mode: InputMode, input: InputBox },
    Search(SearchLine),
    Bookmarks(Bookmarks),
}

/// The mathematical shape of the overlay.
#[verifier::ext_equal]
pub ghost enum OverlayV {
    Inactive,
    Input(InputMode, InputBoxV),
    Search(SearchLineV),
    Bookmarks(BookmarksV),
}

impl View for Overlay {
    type V = OverlayV;

    open spec fn view(&self) -> OverlayV {
        match self {
            Overlay::Inactive => OverlayV::Inactive,
            Overlay::Input { mode, input } => OverlayV::Input(*mode, input@),
            Overlay::Search(line) => OverlayV::Search(line@),
            Overlay::Bookmarks(b) => OverlayV::Bookmarks(b@),
        }
    }
}

/// One piece of outside work that a dispatch asks its caller to perform.
pub enum Effect {
    /// Re-list the pane's current path and hand the listing to
    /// `App::refresh_pane`.
    Refresh { pane: usize },
    /// List `path`; on success hand the listing to `App::set_src_dir`; on
    /// failure leave the panes untouched.
    OpenDir { path: String },
    /// List `path`; on success hand the listing to
    /// `App::set_src_dir_with_index` with `index_path`; on failure leave the
    /// panes untouched.
    OpenDirWithIndex { path: String, index_path: String },
    /// Spawn the resolved external program.
    Run(RunCommand),
    /// Run each job off-thread and report each completion once over the
    /// completion channel: an empty string on success, an `Err: `-prefixed
    /// cause on failure.
    Jobs(Vec<Job>),
    /// Create the directory at `path`; a failure is only logged.
    CreateDir { path: String },
    /// Rename `from` to `to`; a failure is only logged.
    RenameEntry { from: String, to: String },
    /// Leave the main loop.
    Quit,
}

/// The mathematical shape of an effect.
#[verifier::ext_equal]
pub ghost enum EffectV {
    Refresh { pane: int },
    OpenDir { path: Seq<char> },
    OpenDirWithIndex { path: Seq<char>, index_path: Seq<char> },
    Run(RunCommandV),
    Jobs(Seq<JobV>),
    CreateDir { path: Seq<char> },
    RenameEntry { from: Seq<char>, to: Seq<char> },
    Quit,
}

impl View for Effect {
    type V = EffectV;

    open spec fn view(&self) -> EffectV {
        match self {
            Effect::Refresh { pane } => EffectV::Refresh { pane: *pane as int },
            Effect::OpenDir { path } => EffectV::OpenDir { path: path@ },
            Effect::OpenDirWithIndex { path, index_path } => EffectV::OpenDirWithIndex {
                path: path@,
                index_path: index_path@,
            },
            Effect::Run(rc) => EffectV::Run(rc@),
            Effect::Jobs(jobs) => EffectV::Jobs(job_views(jobs@)),
            Effect::CreateDir { path } => EffectV::CreateDir { path: path@ },
            Effect::RenameEntry { from, to } => EffectV::RenameEntry { from: from@, to: to@ },
            Effect::Quit => EffectV::Quit,
        }
    }
}

/// The views of a sequence of effects.
pub open spec fn effect_views(s: Seq<Effect>) -> Seq<EffectV> {
    s.map_values(|e: Effect| e@)
}

/// The dispatcher's state: the configuration, the two panes, which pane is
/// the source, the overlay, and the status message.
pub struct App {
    pub config: Config,
    pub dirs: (Dir, Dir),
    pub src_index: usize,
    pub overlay: Overlay,
    pub message: String,
}

/// The mathematical shape of the dispatcher's state.
#[verifier::ext_equal]
pub ghost struct AppV {
    pub config: ConfigV,
    pub dirs: (DirV, DirV),
    pub src_index: int,
    pub overlay: OverlayV,
    pub message: Seq<char>,
}

impl View for App {
    type V = AppV;

    open spec fn view(&self) -> AppV {
        AppV {
            config: self.config@,
            dirs: (self.dirs.0@, self.dirs.1@),
            src_index: self.src_index as int,
            overlay: self.overlay@,
            message: self.message@,
        }
    }
}

impl AppV {
    /// The dispatcher invariant: the source index names one of the two
    /// panes, and both panes are well formed.
    pub open spec fn wf(self) -> bool {
        &&& self.src_index == 0 || self.src_index == 1
        &&& self.dirs.0.wf()
        &&& self.dirs.1.wf()
    }
}

/// The active (source) pane.
pub open spec fn src_dir_of(a: AppV) -> DirV {
    if a.src_index == 0 {
        a.dirs.0
    } else {
        a.dirs.1
    }
}

/// The other (destination) pane.
pub open spec fn dest_dir_of(a: AppV) -> DirV {
    if a.src_index == 0 {
        a.dirs.1
    } else {
        a.dirs.0
    }
}

/// The state with the source pane replaced.
pub open spec fn with_src(a: AppV, d: DirV) -> AppV {
    if a.src_index == 0 {
        AppV { dirs: (d, a.dirs.1), ..a }
    } else {
        AppV { dirs: (a.dirs.0, d), ..a }
    }
}

/// The pane with every mark dropped.
pub open spec fn clear_marks_step(d: DirV) -> DirV {
    DirV { entries: unmark_all(d.entries), ..d }
}

/// The fixed global key table, consulted last: quit, switch pane, duplicate
/// pane, search, the bulk operations, create-directory, and bookmarks.
pub open spec fn global_key_action(key: Key) -> Option<ActionV> {
    match key {
        Key::Char(c) => if c == 'q' {
            Option::Some(ActionV::Quit)
        } else if c == 'o' {
            Option::Some(ActionV::DuplicateDir)
        } else if c == '/' {
            Option::Some(ActionV::StartSearch)
        } else if c == 'c' {
            Option::Some(ActionV::Copy)
        } else if c == 'm' {
            Option::Some(ActionV::Move)
        } else if c == 'd' {
            Option::Some(ActionV::Delete)
        } else if c == 'i' {
            Option::Some(ActionV::StartCreateDir)
        } else if c == 'b' {
            Option::Some(ActionV::OpenBookmarks)
        } else {
            Option::None
        },
        Key::Tab => Option::Some(ActionV::SwitchSrc),
        _ => Option::None,
    }
}

/// The action the router answers to a key, in strict priority order: an
/// active text input, else an active search line, else active bookmarks,
/// else the source pane, else the global table. An active overlay never
/// leaks input to the pane or the global bindings.
pub open spec fn route_key(a: AppV, key: Key) -> Option<ActionV> {
    match a.overlay {
        OverlayV::Input(_, ib) => Option::Some(input_action(ib.value, key)),
        OverlayV::Search(sl) => Option::Some(search_line_action(sl.pattern, key)),
        OverlayV::Bookmarks(b) => Option::Some(bookmark_action(b, key)),
        OverlayV::Inactive => match key_action(src_dir_of(a), key) {
            Option::Some(act) => Option::Some(act),
            Option::None => global_key_action(key),
        },
    }
}

/// How routing a key changes the state: only an active text input or search
/// line edits its text; nothing else moves.
pub open spec fn route_state(a: AppV, key: Key) -> AppV {
    match a.overlay {
        OverlayV::Input(mode, ib) => AppV {
            overlay: OverlayV::Input(
                mode,
                InputBoxV { prefix: ib.prefix, value: input_value_step(ib.value, key) },
            ),
            ..a
        },
        OverlayV::Search(sl) => AppV {
            overlay: OverlayV::Search(SearchLineV { pattern: input_value_step(sl.pattern, key) }),
            ..a
        },
        _ => a,
    }
}

/// The state after dispatching one action: the pane-local phase first, on
/// the pane that is the source before any switch, then the global phase.
pub open spec fn app_step(a: AppV, act: ActionV) -> AppV {
    let a1 = with_src(a, dir_step(src_dir_of(a), act));
    match act {
        ActionV::SwitchSrc => AppV { src_index: 1 - a1.src_index, ..a1 },
        ActionV::Search(pat) => with_src(a1, search_step(src_dir_of(a1), pat)),
        ActionV::Copy => with_src(a1, clear_marks_step(src_dir_of(a1))),
        ActionV::Move => with_src(a1, clear_marks_step(src_dir_of(a1))),
        ActionV::Delete => with_src(a1, clear_marks_step(src_dir_of(a1))),
        ActionV::StartSearch => AppV {
            overlay: OverlayV::Search(SearchLineV { pattern: Seq::empty() }),
            ..a1
        },
        ActionV::EndSearch => match a1.overlay {
            OverlayV::Search(_) => AppV { overlay: OverlayV::Inactive, ..a1 },
            _ => a1,
        },
        ActionV::StartCreateDir => AppV {
            overlay: OverlayV::Input(
                InputMode::CreateDir,
                InputBoxV { prefix: "Dir: "@, value: Seq::empty() },
            ),
            ..a1
        },
        ActionV::StartRename(name) => AppV {
            overlay: OverlayV::Input(
                InputMode::Rename,
                InputBoxV { prefix: "Rename: "@, value: name },
            ),
            ..a1
        },
        ActionV::EndInputText(_) => match a1.overlay {
            OverlayV::Input(_, _) => AppV { overlay: OverlayV::Inactive, ..a1 },
            _ => a1,
        },
        ActionV::OpenBookmarks => AppV {
            overlay: OverlayV::Bookmarks(BookmarksV { bookmarks: a1.config.bookmarks }),
            ..a1
        },
        ActionV::CloseBookmarks(_) => match a1.overlay {
            OverlayV::Bookmarks(_) => AppV { overlay: OverlayV::Inactive, ..a1 },
            _ => a1,
        },
        _ => a1,
    }
}

/// The effects that finishing a text input asks for: creating or renaming
/// only for a non-empty text while the input overlay is active, with a
/// refresh of the source pane; an empty or absent text only closes the
/// overlay. Renaming on the parent row does nothing but refresh.
pub open spec fn end_input_effects(a: AppV, v: Option<Seq<char>>) -> Seq<EffectV> {
    match a.overlay {
        OverlayV::Input(mode, _) => match v {
            Option::Some(text) => if text.len() > 0 {
                let src = src_dir_of(a);
                match mode {
                    InputMode::CreateDir => seq![
                        EffectV::CreateDir { path: join_path(src.path, text) },
                        EffectV::Refresh { pane: a.src_index },
                    ],
                    InputMode::Rename => if src.selection > 0 {
                        seq![
                            EffectV::RenameEntry {
                                from: src.entries[src.selection - 1].path,
                                to: join_path(src.path, text),
                            },
                            EffectV::Refresh { pane: a.src_index },
                        ]
                    } else {
                        seq![EffectV::Refresh { pane: a.src_index }]
                    },
                }
            } else {
                Seq::empty()
            },
            Option::None => Seq::empty(),
        },
        _ => Seq::empty(),
    }
}

/// The outside work one dispatch asks for, in order: first the command an
/// activation resolved to, then the global phase's effects.
pub open spec fn app_effects(a: AppV, act: ActionV) -> Seq<EffectV> {
    let src = src_dir_of(a);
    let lead = match dispatch_run(src, a.config, act) {
        Option::Some(rc) => seq![EffectV::Run(rc)],
        Option::None => Seq::<EffectV>::empty(),
    };
    let rest = match act {
        ActionV::Refresh => seq![EffectV::Refresh { pane: 0 }, EffectV::Refresh { pane: 1 }],
        ActionV::DuplicateDir => seq![EffectV::OpenDir { path: dest_dir_of(a).path }],
        ActionV::ChangeDir(p) => seq![EffectV::OpenDir { path: p }],
        ActionV::ChangeDirToParent(p) => match parent_of(p) {
            Option::Some(par) => seq![EffectV::OpenDirWithIndex { path: par, index_path: p }],
            Option::None => Seq::<EffectV>::empty(),
        },
        ActionV::Copy => seq![
            EffectV::Jobs(planned_jobs(BulkOp::Copy, src.entries, dest_dir_of(a).path)),
            EffectV::Refresh { pane: a.src_index },
        ],
        ActionV::Move => seq![
            EffectV::Jobs(planned_jobs(BulkOp::Move, src.entries, dest_dir_of(a).path)),
            EffectV::Refresh { pane: a.src_index },
            EffectV::Refresh { pane: 1 - a.src_index },
        ],
        ActionV::Delete => seq![
            EffectV::Jobs(planned_jobs(BulkOp::Delete, src.entries, Seq::empty())),
            EffectV::Refresh { pane: a.src_index },
        ],
        ActionV::EndInputText(v) => end_input_effects(a, v),
        ActionV::CloseBookmarks(p) => match p {
            Option::Some(path) => seq![EffectV::OpenDir { path }],
            Option::None => Seq::<EffectV>::empty(),
        },
        ActionV::Quit => seq![EffectV::Quit],
        _ => Seq::<EffectV>::empty(),
    };
    lead + rest
}

impl App {
    /// A fresh dispatcher: both panes list `path` from the given listing,
    /// the first pane is the source, no overlay, a greeting as status.
    pub fn new(config: Config, path: String, listing: Vec<Entry>) -> (a: App)
        ensures
            a@.config == config@,
            a@.src_index == 0,
            a@.overlay is Inactive,
            a@.message == "Welcome."@,
            a@.dirs.0.path == path@ && a@.dirs.1.path == path@,
            a@.dirs.0.selection == 0 && a@.dirs.1.selection == 0,
            a.dirs.0.entries@.to_multiset() == listing@.to_multiset(),
            a.dirs.1.entries@.to_multiset() == listing@.to_multiset(),
            a@.wf(),
    {
        let listing2 = clone_entries(&listing);
        let path2 = path.clone();
        let dir0 = Dir::new(path, listing);
        let dir1 = Dir::new(path2, listing2);
        App {
            config,
            dirs: (dir0, dir1),
            src_index: 0,
            overlay: Overlay::Inactive,
            message: String::from_str("Welcome."),
        }
    }

    /// Replaces the status message.
    pub fn push_message(&mut self, message: String)
        ensures
            final (self)@ == (AppV { message: message@, ..old(self)@ }),
    {
        self.message = message;
    }

    /// Routes one key in strict priority order: an active overlay consumes
    /// it; else the source pane may answer; else the global table.
    pub fn on_event(&mut self, key: &Key) -> (r: Option<Action>)
        requires
            old(self)@.wf(),
        ensures
            final (self)@ == route_state(old(self)@, *key),
            opt_action_view(r) == route_key(old(self)@, *key),
            final (self)@.wf(),
    {
        match &mut self.overlay {
            Overlay::Input { input, .. } => input.on_event(key),
            Overlay::Search(line) => line.on_event(key),
            Overlay::Bookmarks(b) => b.on_event(key),
            Overlay::Inactive => {
                let local = if self.src_index == 0 {
                    self.dirs.0.on_event(key)
                } else {
                    self.dirs.1.on_event(key)
                };
                match local {
                    Some(a) => Some(a),
                    None => match key {
                        Key::Char(c) => {
                            if *c == 'q' {
                                Some(Action::Quit)
                            } else if *c == 'o' {
                                Some(Action::DuplicateDir)
                            } else if *c == '/' {
                                Some(Action::StartSearch)
                            } else if *c == 'c' {
                                Some(Action::Copy)
                            } else if *c == 'm' {
                                Some(Action::Move)
                            } else if *c == 'd' {
                                Some(Action::Delete)
                            } else if *c == 'i' {
                                Some(Action::StartCreateDir)
                            } else if *c == 'b' {
                                Some(Action::OpenBookmarks)
                            } else {
                                None
                            }
                        },
                        Key::Tab => Some(Action::SwitchSrc),
                        _ => None,
                    },
                }
            },
        }
    }

    /// Applies one action: the pane-local phase on the pane that is the
    /// source before any switch, then the global phase; returns the outside
    /// work the caller must perform, in order.
    pub fn on_dispatch(&mut self, action: &Action) -> (effects: Vec<Effect>)
        requires
            old(self)@.wf(),
        ensures
            final (self)@ == app_step(old(self)@, action@),
            effect_views(effects@) == app_effects(old(self)@, action@),
            final (self)@.wf(),
    {
        let ghost a0 = self@;
        let mut effects: Vec<Effect> = Vec::new();
        let run = if self.src_index == 0 {
            self.dirs.0.on_dispatch(action, &self.config)
        } else {
            self.dirs.1.on_dispatch(action, &self.config)
        };
        let ghost a1 = with_src(a0, dir_step(src_dir_of(a0), action@));
        proof {
            assert(self@ =~= a1);
        }
        if let Some(rc) = run {
            effects.push(Effect::Run(rc));
        }
        let ghost lead = effect_views(effects@);
        proof {
            assert(lead =~= match dispatch_run(src_dir_of(a0), a0.config, action@) {
                Option::Some(rc) => seq![EffectV::Run(rc)],
                Option::None => Seq::<EffectV>::empty(),
            });
        }
        match action {
            Action::Refresh => {
                effects.push(Effect::Refresh { pane: 0 });
                effects.push(Effect::Refresh { pane: 1 });
            },
            Action::SwitchSrc => {
                self.src_index = 1 - self.src_index;
            },
            Action::DuplicateDir => {
                let p = if self.src_index == 0 {
                    self.dirs.1.path()
                } else {
                    self.dirs.0.path()
                };
                effects.push(Effect::OpenDir { path: p });
            },
            Action::ChangeDir(p) => {
                effects.push(Effect::OpenDir { path: p.clone() });
            },
            Action::ChangeDirToParent(p) => {
                if let Some(par) = parent_dir(p.as_str()) {
                    effects.push(Effect::OpenDirWithIndex { path: par, index_path: p.clone() });
                }
            },
            Action::StartSearch => {
                self.overlay = Overlay::Search(SearchLine::new());
            },
            Action::EndSearch => {
                if matches!(self.overlay, Overlay::Search(_)) {
                    self.overlay = Overlay::Inactive;
                }
            },
            Action::Search(pat) => {
                if self.src_index == 0 {
                    self.dirs.0.search(pat);
                } else {
                    self.dirs.1.search(pat);
                }
            },
            Action::Copy => {
                let dest = if self.src_index == 0 {
                    self.dirs.1.path()
                } else {
                    self.dirs.0.path()
                };
                let jobs = if self.src_index == 0 {
                    self.dirs.0.copy_marks(dest.as_str())
                } else {
                    self.dirs.1.copy_marks(dest.as_str())
                };
                effects.push(Effect::Jobs(jobs));
                effects.push(Effect::Refresh { pane: self.src_index });
            },
            Action::Move => {
                let dest = if self.src_index == 0 {
                    self.dirs.1.path()
                } else {
                    self.dirs.0.path()
                };
                let jobs = if self.src_index == 0 {
                    self.dirs.0.move_marks(dest.as_str())
                } else {
                    self.dirs.1.move_marks(dest.as_str())
                };
                effects.push(Effect::Jobs(jobs));
                effects.push(Effect::Refresh { pane: self.src_index });
                effects.push(Effect::Refresh { pane: 1 - self.src_index });
            },
            Action::Delete => {
                let jobs = if self.src_index == 0 {
                    self.dirs.0.delete_marks()
                } else {
                    self.dirs.1.delete_marks()
                };
                effects.push(Effect::Jobs(jobs));
                effects.push(Effect::Refresh { pane: self.src_index });
            },
            Action::StartCreateDir => {
                self.overlay = Overlay::Input {
                    mode: InputMode::CreateDir,
                    input: InputBox::new(String::from_str("Dir: ")),
                };
            },
            Action::StartRename(name) => {
                self.overlay = Overlay::Input {
                    mode: InputMode::Rename,
                    input: InputBox::new_with_default(String::from_str("Rename: "), name.clone()),
                };
            },
            Action::EndInputText(value) => {
                let mode_opt: Option<InputMode> = match &self.overlay {
                    Overlay::Input { mode, .. } => Some(*mode),
                    _ => None,
                };
                if let Some(mode) = mode_opt {
                    if let Some(text) = value {
                        if !text.as_str().is_empty() {
                            match mode {
                                InputMode::CreateDir => {
                                    let target = if self.src_index == 0 {
                                        self.dirs.0.create_dir(text)
                                    } else {
                                        self.dirs.1.create_dir(text)
                                    };
                                    effects.push(Effect::CreateDir { path: target });
                                },
                                InputMode::Rename => {
                                    let plan = if self.src_index == 0 {
                                        self.dirs.0.rename(text)
                                    } else {
                                        self.dirs.1.rename(text)
                                    };
                                    if let Some(job) = plan {
                                        match job {
                                            Job::Rename { src, dest } => {
                                                effects.push(
                                                    Effect::RenameEntry { from: src, to: dest },
                                                );
                                            },
                                            _ => {},
                                        }
                                    }
                                },
                            }
                            effects.push(Effect::Refresh { pane: self.src_index });
                        }
                    }
                    self.overlay = Overlay::Inactive;
                }
            },
            Action::OpenBookmarks => {
                self.overlay = Overlay::Bookmarks(Bookmarks::new(&self.config));
            },
            Action::CloseBookmarks(p) => {
                if let Some(path) = p {
                    effects.push(Effect::OpenDir { path: path.clone() });
                }
                if matches!(self.overlay, Overlay::Bookmarks(_)) {
                    self.overlay = Overlay::Inactive;
                }
            },
            Action::Quit => {
                effects.push(Effect::Quit);
            },
            _ => {},
        }
        proof {
            assert(self@ =~~= app_step(a0, action@));
            assert(effect_views(effects@) =~~= app_effects(a0, action@));
        }
        effects
    }

    /// Applies a fresh listing of one pane's current path: the refresh
    /// reconciliation of that pane; the other pane does not move.
    pub fn refresh_pane(&mut self, pane: usize, listing: Vec<Entry>)
        requires
            old(self)@.wf(),
            pane < 2,
        ensures
            final (self)@.config == old(self)@.config,
            final (self)@.src_index == old(self)@.src_index,
            final (self)@.overlay == old(self)@.overlay,
            final (self)@.message == old(self)@.message,
            pane == 0 ==> final (self)@.dirs.1 == old(self)@.dirs.1,
            pane == 1 ==> final (self)@.dirs.0 == old(self)@.dirs.0,
            ({
                let d0 = if pane == 0 {
                    old(self)@.dirs.0
                } else {
                    old(self)@.dirs.1
                };
                let d1 = if pane == 0 {
                    final (self)@.dirs.0
                } else {
                    final (self)@.dirs.1
                };
                &&& d1.path == d0.path
                &&& entries_sorted(d1.entries)
                &&& d1.entries.len() == listing@.len()
                &&& d1.selection == min(d0.selection, listing@.len() as int)
            }),
            pane == 0 ==> final (self).dirs.0.entries@.to_multiset() == listing@.to_multiset(),
            pane == 1 ==> final (self).dirs.1.entries@.to_multiset() == listing@.to_multiset(),
            final (self)@.wf(),
    {
        if pane == 0 {
            self.dirs.0.refresh(listing);
        } else {
            self.dirs.1.refresh(listing);
        }
    }

    /// Replaces the source pane with a fresh listing of `path`, selecting
    /// the parent row; the destination pane does not move.
    pub fn set_src_dir(&mut self, path: String, listing: Vec<Entry>)
        requires
            old(self)@.wf(),
        ensures
            final (self)@.config == old(self)@.config,
            final (self)@.src_index == old(self)@.src_index,
            final (self)@.overlay == old(self)@.overlay,
            final (self)@.message == old(self)@.message,
            dest_dir_of(final (self)@) == dest_dir_of(old(self)@),
            src_dir_of(final (self)@).path == path@,
            src_dir_of(final (self)@).selection == 0,
            entries_sorted(src_dir_of(final (self)@).entries),
            old(self)@.src_index == 0 ==> final (self).dirs.0.entries@.to_multiset()
                == listing@.to_multiset(),
            old(self)@.src_index == 1 ==> final (self).dirs.1.entries@.to_multiset()
                == listing@.to_multiset(),
            final (self)@.wf(),
    {
        let d = Dir::new(path, listing);
        if self.src_index == 0 {
            self.dirs.0 = d;
        } else {
            self.dirs.1 = d;
        }
    }

    /// Replaces the source pane with a fresh listing of `path`, selecting
    /// the row whose entry path equals `index_path` when present, else the
    /// parent row; the destination pane does not move.
    pub fn set_src_dir_with_index(&mut self, path: String, listing: Vec<Entry>, index_path: &str)
        requires
            old(self)@.wf(),
        ensures
            final (self)@.config == old(self)@.config,
            final (self)@.src_index == old(self)@.src_index,
            final (self)@.overlay == old(self)@.overlay,
            final (self)@.message == old(self)@.message,
            dest_dir_of(final (self)@) == dest_dir_of(old(self)@),
            src_dir_of(final (self)@).path == path@,
            src_dir_of(final (self)@).selection == index_selection(
                src_dir_of(final (self)@).entries,
                index_path@,
            ),
            entries_sorted(src_dir_of(final (self)@).entries),
            old(self)@.src_index == 0 ==> final (self).dirs.0.entries@.to_multiset()
                == listing@.to_multiset(),
            old(self)@.src_index == 1 ==> final (self).dirs.1.entries@.to_multiset()
                == listing@.to_multiset(),
            final (self)@.wf(),
    {
        let d = Dir::new_with_index(path, listing, index_path);
        if self.src_index == 0 {
            self.dirs.0 = d;
        } else {
            self.dirs.1 = d;
        }
    }
}

} // verus!
