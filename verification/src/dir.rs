//! One directory pane: the sorted listing, the cursor, the marks, the
//! search-jump, refresh reconciliation, and the planning of the file
//! operations that consume marks.

use vstd::prelude::*;
use vstd::math::min;
use vstd::multiset::Multiset;
use vstd::seq_lib::group_to_multiset_ensures;
use vstd::string::StringExecFns;
use vstd::seq_lib::to_multiset_build;
use vstd::seq_lib::to_multiset_insert;
use crate::action::Action;
use crate::action::ActionV;
use crate::action::Key;
use crate::action::opt_action_view;
use crate::config::Config;
use crate::config::ConfigV;
use crate::config::RunCommand;
use crate::config::RunCommandV;
use crate::config::opt_run_view;
use crate::config::run_spec;
use crate::text::is_prefix;
use crate::text::join;
use crate::text::join_path;
use crate::text::lemma_lex_le_total;
use crate::text::lemma_lex_le_trans;
use crate::text::lex_le;
use crate::text::lower_of;
use crate::text::str_eq;
use crate::text::str_lex_le;
use crate::text::str_starts_with;

verus! {

/// One filesystem child of the listed directory, plus its mark.
pub struct Entry {
    pub name: String,
    pub path: String,
    pub is_dir: bool,
    pub mark: bool,
}

/// The mathematical shape of an entry.
#[verifier::ext_equal]
pub ghost struct EntryV {
    pub name: Seq<char>,
    pub path: Seq<char>,
    pub is_dir: bool,
    pub mark: bool,
}

impl View for Entry {
    type V = EntryV;

    open spec fn view(&self) -> EntryV {
        EntryV { name: self.name@, path: self.path@, is_dir: self.is_dir, mark: self.mark }
    }
}

impl Entry {
    /// A freshly listed entry: not marked.
    pub fn new(name: String, path: String, is_dir: bool) -> (e: Entry)
        ensures
            e@ == (EntryV { name: name@, path: path@, is_dir, mark: false }),
    {
        Entry { name, path, is_dir, mark: false }
    }

    /// The name a listing shows: directories carry a trailing separator.
    pub fn display_name(&self) -> (r: String)
        ensures
            self.is_dir ==> r@ == self@.name + "/"@,
            !self.is_dir ==> r@ == self@.name,
    {
        let mut r = self.name.clone();
        if self.is_dir {
            r.append("/");
        }
        r
    }

    /// A copy with the same name, path, kind and mark.
    pub fn duplicate(&self) -> (e: Entry)
        ensures
            e == *self,
    {
        Entry {
            name: self.name.clone(),
            path: self.path.clone(),
            is_dir: self.is_dir,
            mark: self.mark,
        }
    }
}

/// The views of a sequence of entries.
pub open spec fn views_of(s: Seq<Entry>) -> Seq<EntryV> {
    s.map_values(|e: Entry| e@)
}

/// The listing order: directories strictly before files, and within the same
/// class ascending lexicographic path order.
pub open spec fn entry_le(a: EntryV, b: EntryV) -> bool {
    if a.is_dir != b.is_dir {
        a.is_dir
    } else {
        lex_le(a.path, b.path)
    }
}

/// Every pair of positions respects the listing order.
pub open spec fn entries_sorted(s: Seq<EntryV>) -> bool {
    forall|i: int, j: int| 0 <= i < j < s.len() ==> #[trigger] entry_le(s[i], s[j])
}

pub proof fn lemma_entry_le_total(a: EntryV, b: EntryV)
    ensures
        entry_le(a, b) || entry_le(b, a),
{
    lemma_lex_le_total(a.path, b.path);
}

pub proof fn lemma_entry_le_trans(a: EntryV, b: EntryV, c: EntryV)
    requires
        entry_le(a, b),
        entry_le(b, c),
    ensures
        entry_le(a, c),
{
    if a.is_dir == b.is_dir && b.is_dir == c.is_dir {
        lemma_lex_le_trans(a.path, b.path, c.path);
    }
}

/// Decides the listing order on two entries.
fn entry_le_exec(a: &Entry, b: &Entry) -> (r: bool)
    ensures
        r == entry_le(a@, b@),
{
    if a.is_dir != b.is_dir {
        a.is_dir
    } else {
        str_lex_le(a.path.as_str(), b.path.as_str())
    }
}

/// Sorts a raw listing into the listing order; the result holds exactly the
/// entries given.
pub fn sort_entries(input: Vec<Entry>) -> (r: Vec<Entry>)
    ensures
        entries_sorted(views_of(r@)),
        r@.to_multiset() == input@.to_multiset(),
{
    broadcast use group_to_multiset_ensures, vstd::multiset::group_multiset_axioms;

    let ghost original = input@;
    let mut rest = input;
    let mut out: Vec<Entry> = Vec::new();
    proof {
        assert(out@.to_multiset() =~= Multiset::<Entry>::empty()) by {
            out@.to_multiset_ensures();
            assert forall|e: Entry| out@.to_multiset().count(e) == 0 by {
                assert(!out@.contains(e));
            }
        }
        assert(out@.to_multiset().add(rest@.to_multiset()) =~= original.to_multiset());
        assert(views_of(out@) =~= Seq::<EntryV>::empty());
    }
    loop
        invariant
            entries_sorted(views_of(out@)),
            out@.to_multiset().add(rest@.to_multiset()) == original.to_multiset(),
        ensures
            entries_sorted(views_of(out@)),
            out@.to_multiset() == original.to_multiset(),
        decreases rest.len(),
    {
        let ghost rest_before = rest@;
        let e = match rest.pop() {
            Some(e) => e,
            None => {
                proof {
                    assert(rest_before.to_multiset() =~= Multiset::<Entry>::empty()) by {
                        rest_before.to_multiset_ensures();
                        assert forall|x: Entry| rest_before.to_multiset().count(x) == 0 by {
                            assert(!rest_before.contains(x));
                        }
                    }
                    assert(out@.to_multiset() =~= original.to_multiset());
                }
                break ;
            },
        };
        proof {
            assert(rest_before =~= rest@.push(e));
            to_multiset_build(rest@, e);
            assert(rest_before.to_multiset() == rest@.to_multiset().insert(e));
        }
        let ghost old_views = views_of(out@);
        let mut k: usize = 0;
        while k < out.len() && entry_le_exec(&out[k], &e)
            invariant
                k <= out.len(),
                entries_sorted(views_of(out@)),
                forall|j: int| 0 <= j < k ==> entry_le(#[trigger] views_of(out@)[j], e@),
            decreases out.len() - k,
        {
            k = k + 1;
        }
        proof {
            if k < out@.len() {
                lemma_entry_le_total(views_of(out@)[k as int], e@);
            }
            assert forall|j: int| k <= j < out@.len() implies entry_le(
                e@,
                #[trigger] views_of(out@)[j],
            ) by {
                if k < j {
                    lemma_entry_le_trans(e@, views_of(out@)[k as int], views_of(out@)[j]);
                }
            }
        }
        let ghost out_before = out@;
        out.insert(k, e);
        proof {
            to_multiset_insert(out_before, k as int, e);
            assert(out@.to_multiset().add(rest@.to_multiset()) =~= original.to_multiset()) by {
                assert(out@.to_multiset() == out_before.to_multiset().insert(e));
                assert(out_before.to_multiset().add(rest_before.to_multiset())
                    == original.to_multiset());
            }
            let ov = views_of(out_before);
            let nv = ov.insert(k as int, e@);
            assert(views_of(out@) =~= nv);
            ov.insert_ensures(k as int, e@);
            assert forall|i: int, j: int| 0 <= i < j < nv.len() implies entry_le(
                #[trigger] nv[i],
                #[trigger] nv[j],
            ) by {
                if j < k {
                    assert(nv[i] == ov[i] && nv[j] == ov[j]);
                } else if j == k {
                    assert(nv[i] == ov[i] && nv[j] == e@);
                } else if i < k {
                    assert(nv[i] == ov[i] && nv[j] == ov[j - 1]);
                    lemma_entry_le_trans(ov[i], e@, ov[j - 1]);
                } else if i == k {
                    assert(nv[i] == e@ && nv[j] == ov[j - 1]);
                } else {
                    assert(nv[i] == ov[i - 1] && nv[j] == ov[j - 1]);
                }
            }
        }
    }
    out
}

/// The first index whose entry has path `p`, if any.
pub open spec fn find_path(s: Seq<EntryV>, p: Seq<char>) -> Option<int>
    decreases s.len(),
{
    if s.len() == 0 {
        Option::None
    } else if s[0].path == p {
        Option::Some(0)
    } else {
        match find_path(s.drop_first(), p) {
            Option::Some(i) => Option::Some(i + 1),
            Option::None => Option::None,
        }
    }
}

pub proof fn lemma_find_path_at(s: Seq<EntryV>, p: Seq<char>, i: int)
    requires
        0 <= i < s.len(),
        s[i].path == p,
        forall|j: int| 0 <= j < i ==> (#[trigger] s[j]).path != p,
    ensures
        find_path(s, p) == Some(i),
    decreases i,
{
    if i > 0 {
        assert(s[0].path != p);
        let rest = s.drop_first();
        assert(rest[i - 1] == s[i]);
        assert forall|j: int| 0 <= j < i - 1 implies (#[trigger] rest[j]).path != p by {
            assert(rest[j] == s[j + 1]);
        }
        lemma_find_path_at(rest, p, i - 1);
    }
}

pub proof fn lemma_find_path_none(s: Seq<EntryV>, p: Seq<char>)
    requires
        forall|j: int| 0 <= j < s.len() ==> (#[trigger] s[j]).path != p,
    ensures
        find_path(s, p) is None,
    decreases s.len(),
{
    if s.len() > 0 {
        let rest = s.drop_first();
        assert forall|j: int| 0 <= j < rest.len() implies (#[trigger] rest[j]).path != p by {
            assert(rest[j] == s[j + 1]);
        }
        lemma_find_path_none(rest, p);
    }
}

/// The entry's name starts with the pattern, both case-folded.
pub open spec fn entry_matches(e: EntryV, pat: Seq<char>) -> bool {
    is_prefix(lower_of(pat), lower_of(e.name))
}

/// The first index whose entry matches the pattern, if any.
pub open spec fn find_match(s: Seq<EntryV>, pat: Seq<char>) -> Option<int>
    decreases s.len(),
{
    if s.len() == 0 {
        Option::None
    } else if entry_matches(s[0], pat) {
        Option::Some(0)
    } else {
        match find_match(s.drop_first(), pat) {
            Option::Some(i) => Option::Some(i + 1),
            Option::None => Option::None,
        }
    }
}

pub proof fn lemma_find_match_at(s: Seq<EntryV>, pat: Seq<char>, i: int)
    requires
        0 <= i < s.len(),
        entry_matches(s[i], pat),
        forall|j: int| 0 <= j < i ==> !entry_matches(#[trigger] s[j], pat),
    ensures
        find_match(s, pat) == Some(i),
    decreases i,
{
    if i > 0 {
        assert(!entry_matches(s[0], pat));
        let rest = s.drop_first();
        assert(rest[i - 1] == s[i]);
        assert forall|j: int| 0 <= j < i - 1 implies !entry_matches(#[trigger] rest[j], pat) by {
            assert(rest[j] == s[j + 1]);
        }
        lemma_find_match_at(rest, pat, i - 1);
    }
}

pub proof fn lemma_find_match_none(s: Seq<EntryV>, pat: Seq<char>)
    requires
        forall|j: int| 0 <= j < s.len() ==> !entry_matches(#[trigger] s[j], pat),
    ensures
        find_match(s, pat) is None,
    decreases s.len(),
{
    if s.len() > 0 {
        let rest = s.drop_first();
        assert forall|j: int| 0 <= j < rest.len() implies !entry_matches(
            #[trigger] rest[j],
            pat,
        ) by {
            assert(rest[j] == s[j + 1]);
        }
        lemma_find_match_none(rest, pat);
    }
}

/// The row pre-selected after listing a directory with a remembered path:
/// one past the first entry whose path equals `p`, or the parent row.
pub open spec fn index_selection(s: Seq<EntryV>, p: Seq<char>) -> int {
    match find_path(s, p) {
        Option::Some(i) => i + 1,
        Option::None => 0,
    }
}

/// All marks dropped.
pub open spec fn unmark_all(s: Seq<EntryV>) -> Seq<EntryV> {
    s.map_values(|e: EntryV| EntryV { mark: false, ..e })
}

/// The mark of row `r` (rows are 1-based; row 0 is the parent row) flipped.
pub open spec fn flip_mark(s: Seq<EntryV>, r: int) -> Seq<EntryV>
    recommends
        1 <= r <= s.len(),
{
    s.update(r - 1, EntryV { mark: !s[r - 1].mark, ..s[r - 1] })
}

/// One mark-toggle aimed at row `r`: the parent row cannot be marked, any
/// other row flips its mark; the cursor advances one row, clamped.
pub open spec fn toggle_row(d: DirV, r: int) -> DirV {
    let advanced = min(d.selection + 1, d.entries.len() as int);
    if r == 0 {
        DirV { selection: advanced, ..d }
    } else {
        DirV { entries: flip_mark(d.entries, r), selection: advanced, ..d }
    }
}

/// The pane-local effect of a dispatched action on the pane state.
pub open spec fn dir_step(d: DirV, a: ActionV) -> DirV {
    match a {
        ActionV::CursorDown => DirV {
            selection: min(d.selection + 1, d.entries.len() as int),
            ..d
        },
        ActionV::CursorUp => DirV {
            selection: if d.selection > 0 {
                d.selection - 1
            } else {
                0
            },
            ..d
        },
        ActionV::CursorToFirst => DirV { selection: 0, ..d },
        ActionV::CursorToLast => DirV { selection: d.entries.len() as int, ..d },
        ActionV::ToggleMark => toggle_row(d, d.selection),
        _ => d,
    }
}

/// The selection after a search-jump: one past the first entry whose
/// case-folded name starts with the case-folded pattern, else unchanged.
pub open spec fn search_step(d: DirV, pat: Seq<char>) -> DirV {
    match find_match(d.entries, pat) {
        Option::Some(i) => DirV { selection: i + 1, ..d },
        Option::None => d,
    }
}

/// A bulk operation over the marked entries.
#[derive(Clone, Copy, PartialEq, Eq, Structural, Debug)]
pub enum BulkOp {
    Copy,
    Move,
    Delete,
}

/// One unit of background work on the filesystem, as plain paths.
pub enum Job {
    CopyDir { src: String, dest: String },
    CopyFile { src: String, dest: String },
    Rename { src: String, dest: String },
    DeleteDir { src: String },
    DeleteFile { src: String },
}

/// The mathematical shape of a job.
#[verifier::ext_equal]
pub ghost enum JobV {
    CopyDir { src: Seq<char>, dest: Seq<char> },
    CopyFile { src: Seq<char>, dest: Seq<char> },
    Rename { src: Seq<char>, dest: Seq<char> },
    DeleteDir { src: Seq<char> },
    DeleteFile { src: Seq<char> },
}

impl View for Job {
    type V = JobV;

    open spec fn view(&self) -> JobV {
        match self {
            Job::CopyDir { src, dest } => JobV::CopyDir { src: src@, dest: dest@ },
            Job::CopyFile { src, dest } => JobV::CopyFile { src: src@, dest: dest@ },
            Job::Rename { src, dest } => JobV::Rename { src: src@, dest: dest@ },
            Job::DeleteDir { src } => JobV::DeleteDir { src: src@ },
            Job::DeleteFile { src } => JobV::DeleteFile { src: src@ },
        }
    }
}

/// The views of a sequence of jobs.
pub open spec fn job_views(s: Seq<Job>) -> Seq<JobV> {
    s.map_values(|j: Job| j@)
}

/// The job a bulk operation submits for one marked entry: copying places a
/// directory inside the destination and a file at `dest/name`; moving
/// renames to `dest/name`; deleting removes the file or the whole subtree.
pub open spec fn job_of(op: BulkOp, e: EntryV, dest: Seq<char>) -> JobV {
    match op {
        BulkOp::Copy => if e.is_dir {
            JobV::CopyDir { src: e.path, dest: dest }
        } else {
            JobV::CopyFile { src: e.path, dest: join_path(dest, e.name) }
        },
        BulkOp::Move => JobV::Rename { src: e.path, dest: join_path(dest, e.name) },
        BulkOp::Delete => if e.is_dir {
            JobV::DeleteDir { src: e.path }
        } else {
            JobV::DeleteFile { src: e.path }
        },
    }
}

/// The jobs a bulk operation submits: one per marked entry, in listing order.
pub open spec fn planned_jobs(op: BulkOp, s: Seq<EntryV>, dest: Seq<char>) -> Seq<JobV>
    decreases s.len(),
{
    if s.len() == 0 {
        Seq::empty()
    } else {
        let rest = planned_jobs(op, s.drop_first(), dest);
        if s[0].mark {
            seq![job_of(op, s[0], dest)] + rest
        } else {
            rest
        }
    }
}

/// Copies a listing.
pub fn clone_entries(v: &Vec<Entry>) -> (r: Vec<Entry>)
    ensures
        r@ == v@,
{
    let mut r: Vec<Entry> = Vec::new();
    let n = v.len();
    let mut i: usize = 0;
    while i < n
        invariant
            i <= n,
            n == v.len(),
            r@ == v@.take(i as int),
        decreases n - i,
    {
        r.push(v[i].duplicate());
        proof {
            assert(r@ =~= v@.take(i + 1 as int));
        }
        i = i + 1;
    }
    proof {
        assert(v@.take(n as int) =~= v@);
    }
    r
}

/// One directory pane: its path, its sorted listing, and the selected row
/// (`0` is the synthetic parent row, `1..=entries.len()` the entries).
pub struct Dir {
    pub path: String,
    pub entries: Vec<Entry>,
    pub selection: usize,
}

/// The mathematical shape of a pane.
#[verifier::ext_equal]
pub ghost struct DirV {
    pub path: Seq<char>,
    pub entries: Seq<EntryV>,
    pub selection: int,
}

impl View for Dir {
    type V = DirV;

    open spec fn view(&self) -> DirV {
        DirV {
            path: self.path@,
            entries: views_of(self.entries@),
            selection: self.selection as int,
        }
    }
}

impl DirV {
    /// The pane invariant: the selection addresses the parent row or an
    /// entry row, and the listing is in listing order.
    pub open spec fn wf(self) -> bool {
        &&& 0 <= self.selection <= self.entries.len()
        &&& entries_sorted(self.entries)
    }
}

/// The action the pane itself answers to a key when no overlay is active,
/// if any.
pub open spec fn key_action(d: DirV, key: Key) -> Option<ActionV> {
    match key {
        Key::Char(c) => if c == 'j' {
            Option::Some(ActionV::CursorDown)
        } else if c == 'k' {
            Option::Some(ActionV::CursorUp)
        } else if c == 'h' {
            Option::Some(ActionV::ChangeDirToParent(d.path))
        } else if c == 'l' {
            change_dir_action(d)
        } else if c == 'g' {
            Option::Some(ActionV::CursorToFirst)
        } else if c == 'G' {
            Option::Some(ActionV::CursorToLast)
        } else if c == ' ' {
            Option::Some(ActionV::ToggleMark)
        } else if c == 'e' {
            Option::Some(edit_action(d))
        } else if c == 'r' {
            rename_action(d)
        } else {
            Option::None
        },
        Key::Enter => Option::Some(enter_action(d)),
        _ => Option::None,
    }
}

/// Descending into the selection: only a directory row answers.
pub open spec fn change_dir_action(d: DirV) -> Option<ActionV> {
    if d.selection == 0 {
        Option::None
    } else {
        let e = d.entries[d.selection - 1];
        if e.is_dir {
            Option::Some(ActionV::ChangeDir(e.path))
        } else {
            Option::None
        }
    }
}

/// Activating the selection: the parent row goes up, a directory descends,
/// a file is executed.
pub open spec fn enter_action(d: DirV) -> ActionV {
    if d.selection == 0 {
        ActionV::ChangeDirToParent(d.path)
    } else {
        let e = d.entries[d.selection - 1];
        if e.is_dir {
            ActionV::ChangeDir(e.path)
        } else {
            ActionV::Execute(e.path)
        }
    }
}

/// Editing the selection: the parent row edits the pane's own directory.
pub open spec fn edit_action(d: DirV) -> ActionV {
    if d.selection == 0 {
        ActionV::Edit(d.path)
    } else {
        ActionV::Edit(d.entries[d.selection - 1].path)
    }
}

/// Renaming: illegal on the parent row, else the text input is seeded with
/// the selected entry's name.
pub open spec fn rename_action(d: DirV) -> Option<ActionV> {
    if d.selection == 0 {
        Option::None
    } else {
        Option::Some(ActionV::StartRename(d.entries[d.selection - 1].name))
    }
}

/// The command the pane's dispatch hands out for an activation action.
pub open spec fn dispatch_run(d: DirV, c: ConfigV, a: ActionV) -> Option<
    RunCommandV,
> {
    match a {
        ActionV::Execute(p) => run_spec(c.exec_command, p, d.path),
        ActionV::Edit(p) => run_spec(c.edit_command, p, d.path),
        _ => Option::None,
    }
}

impl Dir {
    /// A pane freshly listed at `path`: entries in listing order, the parent
    /// row selected.
    pub fn new(path: String, listing: Vec<Entry>) -> (d: Dir)
        ensures
            d@.path == path@,
            d@.selection == 0,
            d.entries@.to_multiset() == listing@.to_multiset(),
            d@.wf(),
    {
        let entries = sort_entries(listing);
        Dir { path, entries, selection: 0 }
    }

    /// A pane freshly listed at `path`, pre-selecting the row whose entry
    /// path equals `index_path`, or the parent row when none does.
    pub fn new_with_index(path: String, listing: Vec<Entry>, index_path: &str) -> (d: Dir)
        ensures
            d@.path == path@,
            d@.selection == index_selection(d@.entries, index_path@),
            d.entries@.to_multiset() == listing@.to_multiset(),
            d@.wf(),
    {
        let ghost listing0 = listing@;
        let entries = sort_entries(listing);
        let ghost views = views_of(entries@);
        let n = entries.len();
        let mut i: usize = 0;
        while i < n
            invariant
                i <= n,
                n == entries.len(),
                views == views_of(entries@),
                entries_sorted(views),
                listing0 == listing@,
                entries@.to_multiset() == listing0.to_multiset(),
                forall|j: int| 0 <= j < i ==> (#[trigger] views[j]).path != index_path@,
            decreases n - i,
        {
            proof {
                assert(views[i as int] == entries@[i as int]@);
            }
            if str_eq(entries[i].path.as_str(), index_path) {
                proof {
                    assert(views[i as int].path == index_path@);
                    lemma_find_path_at(views, index_path@, i as int);
                }
                return Dir { path, entries, selection: i + 1 };
            }
            i = i + 1;
        }
        proof {
            lemma_find_path_none(views, index_path@);
        }
        Dir { path, entries, selection: 0 }
    }

    /// The pane's directory path.
    pub fn path(&self) -> (r: String)
        ensures
            r@ == self@.path,
    {
        self.path.clone()
    }

    /// Refresh reconciliation: the new listing replaces the old wholesale,
    /// and the selection is clamped to the new entry count.
    pub fn refresh(&mut self, listing: Vec<Entry>)
        ensures
            final (self)@.path == old(self)@.path,
            final (self).entries@.to_multiset() == listing@.to_multiset(),
            final (self)@.entries.len() == listing@.len(),
            final (self)@.selection == min(old(self)@.selection, listing@.len() as int),
            final (self)@.wf(),
    {
        broadcast use group_to_multiset_ensures;

        let ghost listing_view = listing@;
        let entries = sort_entries(listing);
        proof {
            assert(entries@.len() == listing_view.len()) by {
                assert(entries@.to_multiset().len() == entries@.len());
                assert(listing_view.to_multiset().len() == listing_view.len());
            }
        }
        let n = entries.len();
        self.entries = entries;
        if self.selection > n {
            self.selection = n;
        }
    }

    pub fn cursor_down(&mut self)
        requires
            old(self)@.wf(),
        ensures
            final (self)@ == dir_step(old(self)@, ActionV::CursorDown),
            final (self)@.wf(),
    {
        if self.selection < self.entries.len() {
            self.selection = self.selection + 1;
        }
    }

    pub fn cursor_up(&mut self)
        requires
            old(self)@.wf(),
        ensures
            final (self)@ == dir_step(old(self)@, ActionV::CursorUp),
            final (self)@.wf(),
    {
        if self.selection > 0 {
            self.selection = self.selection - 1;
        }
    }

    pub fn cursor_to_first(&mut self)
        requires
            old(self)@.wf(),
        ensures
            final (self)@ == dir_step(old(self)@, ActionV::CursorToFirst),
            final (self)@.wf(),
    {
        self.selection = 0;
    }

    pub fn cursor_to_last(&mut self)
        requires
            old(self)@.wf(),
        ensures
            final (self)@ == dir_step(old(self)@, ActionV::CursorToLast),
            final (self)@.wf(),
    {
        self.selection = self.entries.len();
    }

    /// The parent row cannot be marked: there the toggle only advances the
    /// cursor. Any entry row flips its mark, then the cursor advances.
    pub fn toggle_mark(&mut self)
        requires
            old(self)@.wf(),
        ensures
            final (self)@ == dir_step(old(self)@, ActionV::ToggleMark),
            final (self)@.wf(),
    {
        let ghost d0 = self@;
        if self.selection > 0 {
            let i = self.selection - 1;
            let er = &mut self.entries[i];
            let m = er.mark;
            er.mark = !m;
            proof {
                assert(views_of(self.entries@) =~= flip_mark(d0.entries, d0.selection));
                assert(entries_sorted(views_of(self.entries@))) by {
                    let nv = views_of(self.entries@);
                    assert forall|a: int, b: int| 0 <= a < b < nv.len() implies entry_le(
                        #[trigger] nv[a],
                        #[trigger] nv[b],
                    ) by {
                        assert(entry_le(d0.entries[a], d0.entries[b]));
                        assert(nv[a].path == d0.entries[a].path && nv[a].is_dir
                            == d0.entries[a].is_dir);
                        assert(nv[b].path == d0.entries[b].path && nv[b].is_dir
                            == d0.entries[b].is_dir);
                    }
                }
            }
        }
        if self.selection < self.entries.len() {
            self.selection = self.selection + 1;
        }
    }

    /// Search-jump: move the selection to the first entry whose case-folded
    /// name starts with the case-folded pattern; keep it when none matches.
    /// The empty pattern selects the first entry whenever one exists.
    pub fn search(&mut self, pattern: &String)
        requires
            old(self)@.wf(),
        ensures
            final (self)@ == search_step(old(self)@, pattern@),
            old(self)@.entries.len() > 0 && pattern@.len() == 0 ==> final (self)@.selection == 1,
            final (self)@.wf(),
    {
        let ghost d0 = self@;
        let pat_low = pattern.as_str().to_lowercase();
        let n = self.entries.len();
        let mut i: usize = 0;
        while i < n
            invariant
                i <= n,
                *self == *old(self),
                n == self.entries.len(),
                d0 == self@,
                d0.wf(),
                pat_low@ == lower_of(pattern@),
                pattern@.len() == 0 ==> pat_low@.len() == 0,
                forall|j: int| 0 <= j < i ==> !entry_matches(#[trigger] d0.entries[j], pattern@),
            decreases n - i,
        {
            proof {
                assert(d0.entries[i as int] == self.entries@[i as int]@);
            }
            let name_low = self.entries[i].name.as_str().to_lowercase();
            if str_starts_with(name_low.as_str(), pat_low.as_str()) {
                proof {
                    assert(entry_matches(d0.entries[i as int], pattern@));
                    lemma_find_match_at(d0.entries, pattern@, i as int);
                }
                self.selection = i + 1;
                return ;
            }
            i = i + 1;
        }
        proof {
            lemma_find_match_none(d0.entries, pattern@);
        }
    }

    /// Plans one bulk operation: collects one job per marked entry, in
    /// listing order, and clears every mark.
    fn plan_marked(&mut self, dest_dir: &str, op: BulkOp) -> (jobs: Vec<Job>)
        requires
            old(self)@.wf(),
        ensures
            final (self)@.path == old(self)@.path,
            final (self)@.selection == old(self)@.selection,
            final (self)@.entries == unmark_all(old(self)@.entries),
            job_views(jobs@) == planned_jobs(op, old(self)@.entries, dest_dir@),
            final (self)@.wf(),
    {
        let ghost views0 = self@.entries;
        let n = self.entries.len();
        let mut new_entries: Vec<Entry> = Vec::new();
        let mut jobs: Vec<Job> = Vec::new();
        let mut i: usize = 0;
        proof {
            assert(views0.skip(0) =~= views0);
            assert(job_views(jobs@) + planned_jobs(op, views0, dest_dir@) =~= planned_jobs(
                op,
                views0,
                dest_dir@,
            ));
        }
        while i < n
            invariant
                i <= n,
                *self == *old(self),
                n == self.entries.len(),
                views0 == self@.entries,
                new_entries@.len() == i,
                forall|k: int|
                    0 <= k < i ==> #[trigger] views_of(new_entries@)[k] == (EntryV {
                        mark: false,
                        ..views0[k]
                    }),
                job_views(jobs@) + planned_jobs(op, views0.skip(i as int), dest_dir@)
                    == planned_jobs(op, views0, dest_dir@),
            decreases n - i,
        {
            let ghost jobs_before = job_views(jobs@);
            let ghost suffix = views0.skip(i as int);
            proof {
                assert(views0[i as int] == self.entries@[i as int]@);
                assert(suffix[0] == views0[i as int]);
                assert(suffix.drop_first() =~= views0.skip(i + 1 as int));
            }
            let e = &self.entries[i];
            let marked = e.mark;
            let ghost before = new_entries@;
            new_entries.push(
                Entry { name: e.name.clone(), path: e.path.clone(), is_dir: e.is_dir, mark: false },
            );
            proof {
                assert forall|k: int| 0 <= k < i + 1 implies #[trigger] views_of(new_entries@)[k]
                    == (EntryV { mark: false, ..views0[k] }) by {
                    if k < i {
                        assert(new_entries@[k] == before[k]);
                        assert(views_of(before)[k] == before[k]@);
                    } else {
                        assert(new_entries@[k]@ == (EntryV { mark: false, ..views0[k] }));
                    }
                }
            }
            if marked {
                let job = match op {
                    BulkOp::Copy => if e.is_dir {
                        Job::CopyDir { src: e.path.clone(), dest: dest_dir.to_owned() }
                    } else {
                        Job::CopyFile {
                            src: e.path.clone(),
                            dest: join(dest_dir, e.name.as_str()),
                        }
                    },
                    BulkOp::Move => Job::Rename {
                        src: e.path.clone(),
                        dest: join(dest_dir, e.name.as_str()),
                    },
                    BulkOp::Delete => if e.is_dir {
                        Job::DeleteDir { src: e.path.clone() }
                    } else {
                        Job::DeleteFile { src: e.path.clone() }
                    },
                };
                proof {
                    assert(job@ == job_of(op, views0[i as int], dest_dir@));
                }
                jobs.push(job);
                proof {
                    assert(job_views(jobs@) =~= jobs_before + seq![
                        job_of(op, views0[i as int], dest_dir@),
                    ]);
                    assert(job_views(jobs@) + planned_jobs(op, views0.skip(i + 1 as int), dest_dir@)
                        =~= jobs_before + (seq![job_of(op, views0[i as int], dest_dir@)]
                        + planned_jobs(op, views0.skip(i + 1 as int), dest_dir@)));
                }
            } else {
                proof {
                    assert(job_views(jobs@) + planned_jobs(op, views0.skip(i + 1 as int), dest_dir@)
                        == planned_jobs(op, views0, dest_dir@));
                }
            }
            i = i + 1;
        }
        proof {
            assert(views0.skip(n as int) =~= Seq::<EntryV>::empty());
            assert(job_views(jobs@) + Seq::<JobV>::empty() =~= job_views(jobs@));
            assert(views_of(new_entries@) =~= unmark_all(views0));
            let unmarked = unmark_all(views0);
            assert(entries_sorted(unmarked)) by {
                assert forall|a: int, b: int| 0 <= a < b < unmarked.len() implies entry_le(
                    #[trigger] unmarked[a],
                    #[trigger] unmarked[b],
                ) by {
                    assert(entry_le(views0[a], views0[b]));
                }
            }
        }
        self.entries = new_entries;
        jobs
    }

    /// Copy planning: one job per marked entry toward `dest_dir`; marks are
    /// cleared at submission, before any job runs.
    pub fn copy_marks(&mut self, dest_dir: &str) -> (jobs: Vec<Job>)
        requires
            old(self)@.wf(),
        ensures
            final (self)@.path == old(self)@.path,
            final (self)@.selection == old(self)@.selection,
            final (self)@.entries == unmark_all(old(self)@.entries),
            job_views(jobs@) == planned_jobs(BulkOp::Copy, old(self)@.entries, dest_dir@),
            final (self)@.wf(),
    {
        self.plan_marked(dest_dir, BulkOp::Copy)
    }

    /// Move planning: one rename job per marked entry toward `dest_dir`;
    /// marks are cleared at submission.
    pub fn move_marks(&mut self, dest_dir: &str) -> (jobs: Vec<Job>)
        requires
            old(self)@.wf(),
        ensures
            final (self)@.path == old(self)@.path,
            final (self)@.selection == old(self)@.selection,
            final (self)@.entries == unmark_all(old(self)@.entries),
            job_views(jobs@) == planned_jobs(BulkOp::Move, old(self)@.entries, dest_dir@),
            final (self)@.wf(),
    {
        self.plan_marked(dest_dir, BulkOp::Move)
    }

    /// Delete planning: one removal job per marked entry; marks are cleared
    /// at submission.
    pub fn delete_marks(&mut self) -> (jobs: Vec<Job>)
        requires
            old(self)@.wf(),
        ensures
            final (self)@.path == old(self)@.path,
            final (self)@.selection == old(self)@.selection,
            final (self)@.entries == unmark_all(old(self)@.entries),
            job_views(jobs@) == planned_jobs(BulkOp::Delete, old(self)@.entries, Seq::empty()),
            final (self)@.wf(),
    {
        proof {
            reveal_strlit("");
            assert(""@ =~= Seq::<char>::empty());
        }
        self.plan_marked("", BulkOp::Delete)
    }

    /// The path a new directory named `name` would get inside this pane.
    pub fn create_dir(&self, name: &String) -> (target: String)
        ensures
            target@ == join_path(self@.path, name@),
    {
        join(self.path.as_str(), name.as_str())
    }

    /// The rename the selected entry would undergo to be called `name`:
    /// nothing on the parent row.
    pub fn rename(&self, name: &String) -> (r: Option<Job>)
        requires
            self@.wf(),
        ensures
            self@.selection == 0 ==> r is None,
            self@.selection > 0 ==> (r matches Some(j) && j@ == (JobV::Rename {
                src: self@.entries[self@.selection - 1].path,
                dest: join_path(self@.path, name@),
            })),
    {
        if self.selection == 0 {
            None
        } else {
            let e = &self.entries[self.selection - 1];
            proof {
                assert(self@.entries[self@.selection - 1] == self.entries@[self.selection - 1]@);
            }
            Some(
                Job::Rename { src: e.path.clone(), dest: join(self.path.as_str(), name.as_str()) },
            )
        }
    }

    /// Offers a key to the pane; the pane may decline.
    pub fn on_event(&self, key: &Key) -> (r: Option<Action>)
        requires
            self@.wf(),
        ensures
            opt_action_view(r) == key_action(self@, *key),
    {
        match key {
            Key::Char(c) => {
                if *c == 'j' {
                    Some(Action::CursorDown)
                } else if *c == 'k' {
                    Some(Action::CursorUp)
                } else if *c == 'h' {
                    Some(Action::ChangeDirToParent(self.path.clone()))
                } else if *c == 'l' {
                    self.on_change_dir()
                } else if *c == 'g' {
                    Some(Action::CursorToFirst)
                } else if *c == 'G' {
                    Some(Action::CursorToLast)
                } else if *c == ' ' {
                    Some(Action::ToggleMark)
                } else if *c == 'e' {
                    Some(self.on_edit())
                } else if *c == 'r' {
                    self.on_rename()
                } else {
                    None
                }
            },
            Key::Enter => Some(self.on_enter()),
            _ => None,
        }
    }

    fn on_change_dir(&self) -> (r: Option<Action>)
        requires
            self@.wf(),
        ensures
            opt_action_view(r) == change_dir_action(self@),
    {
        if self.selection == 0 {
            None
        } else {
            let e = &self.entries[self.selection - 1];
            proof {
                assert(self@.entries[self@.selection - 1] == self.entries@[self.selection - 1]@);
            }
            if e.is_dir {
                Some(Action::ChangeDir(e.path.clone()))
            } else {
                None
            }
        }
    }

    fn on_enter(&self) -> (r: Action)
        requires
            self@.wf(),
        ensures
            r@ == enter_action(self@),
    {
        if self.selection == 0 {
            Action::ChangeDirToParent(self.path.clone())
        } else {
            let e = &self.entries[self.selection - 1];
            proof {
                assert(self@.entries[self@.selection - 1] == self.entries@[self.selection - 1]@);
            }
            if e.is_dir {
                Action::ChangeDir(e.path.clone())
            } else {
                Action::Execute(e.path.clone())
            }
        }
    }

    fn on_edit(&self) -> (r: Action)
        requires
            self@.wf(),
        ensures
            r@ == edit_action(self@),
    {
        if self.selection == 0 {
            Action::Edit(self.path.clone())
        } else {
            let e = &self.entries[self.selection - 1];
            proof {
                assert(self@.entries[self@.selection - 1] == self.entries@[self.selection - 1]@);
            }
            Action::Edit(e.path.clone())
        }
    }

    fn on_rename(&self) -> (r: Option<Action>)
        requires
            self@.wf(),
        ensures
            opt_action_view(r) == rename_action(self@),
    {
        if self.selection == 0 {
            None
        } else {
            let e = &self.entries[self.selection - 1];
            proof {
                assert(self@.entries[self@.selection - 1] == self.entries@[self.selection - 1]@);
            }
            Some(Action::StartRename(e.name.clone()))
        }
    }

    /// The pane-local phase of dispatch: cursor and mark actions mutate the
    /// pane; activation actions resolve to an external command; everything
    /// else leaves the pane untouched.
    pub fn on_dispatch(&mut self, action: &Action, config: &Config) -> (r: Option<RunCommand>)
        requires
            old(self)@.wf(),
        ensures
            final (self)@ == dir_step(old(self)@, action@),
            opt_run_view(r) == dispatch_run(old(self)@, config@, action@),
            final (self)@.wf(),
    {
        match action {
            Action::CursorDown => {
                self.cursor_down();
                None
            },
            Action::CursorUp => {
                self.cursor_up();
                None
            },
            Action::CursorToFirst => {
                self.cursor_to_first();
                None
            },
            Action::CursorToLast => {
                self.cursor_to_last();
                None
            },
            Action::ToggleMark => {
                self.toggle_mark();
                None
            },
            Action::Execute(p) => config.exec(p.as_str(), self.path.as_str()),
            Action::Edit(p) => config.edit(p.as_str(), self.path.as_str()),
            _ => None,
        }
    }
}

/// Listing order, spelled out: in a listing in the pane's order every
/// directory stands before every file, and entries of the same kind come in
/// ascending path order. Every pane the constructors and `refresh` produce
/// satisfies `entries_sorted`, so this holds after every listing.
pub proof fn lemma_listing_partitioned(s: Seq<EntryV>)
    requires
        entries_sorted(s),
    ensures
        forall|i: int, j: int|
            0 <= i < j < s.len() && (#[trigger] s[j]).is_dir ==> (#[trigger] s[i]).is_dir,
        forall|i: int, j: int|
            0 <= i < j < s.len() && (#[trigger] s[i]).is_dir == (#[trigger] s[j]).is_dir
                ==> lex_le(s[i].path, s[j].path),
{
    assert forall|i: int, j: int|
        0 <= i < j < s.len() && (#[trigger] s[j]).is_dir implies (#[trigger] s[i]).is_dir by {
        assert(entry_le(s[i], s[j]));
    }
    assert forall|i: int, j: int|
        0 <= i < j < s.len() && (#[trigger] s[i]).is_dir == (#[trigger] s[j]).is_dir implies lex_le(
        s[i].path,
        s[j].path,
    ) by {
        assert(entry_le(s[i], s[j]));
    }
}

/// One pane-affecting occurrence: a dispatched action, or a refresh that
/// produced the given listing.
pub ghost enum PaneEvent {
    Act(ActionV),
    Refreshed(Seq<EntryV>),
}

/// The pane state after one event: an action steps the pane; a refresh
/// replaces the listing and clamps the selection to the new entry count.
pub open spec fn pane_step(d: DirV, ev: PaneEvent) -> DirV {
    match ev {
        PaneEvent::Act(a) => dir_step(d, a),
        PaneEvent::Refreshed(new_entries) => DirV {
            path: d.path,
            entries: new_entries,
            selection: min(d.selection, new_entries.len() as int),
        },
    }
}

/// The pane state after a sequence of events.
pub open spec fn pane_steps(d: DirV, evs: Seq<PaneEvent>) -> DirV
    decreases evs.len(),
{
    if evs.len() == 0 {
        d
    } else {
        pane_steps(pane_step(d, evs[0]), evs.drop_first())
    }
}

pub proof fn lemma_pane_step_bound(d: DirV, ev: PaneEvent)
    requires
        0 <= d.selection <= d.entries.len(),
    ensures
        0 <= pane_step(d, ev).selection <= pane_step(d, ev).entries.len(),
{
}

/// Selection bound: after every sequence of cursor, mark and refresh events
/// the selection stays between the parent row and the entry count.
pub proof fn lemma_selection_bound(d: DirV, evs: Seq<PaneEvent>)
    requires
        0 <= d.selection <= d.entries.len(),
    ensures
        0 <= pane_steps(d, evs).selection <= pane_steps(d, evs).entries.len(),
    decreases evs.len(),
{
    if evs.len() > 0 {
        lemma_pane_step_bound(d, evs[0]);
        lemma_selection_bound(pane_step(d, evs[0]), evs.drop_first());
    }
}

/// Mark-toggle idempotence: toggling the mark of one row twice restores
/// every mark to its original value, while each toggle advances the cursor,
/// so the selection moves down two rows, clamped to the entry count.
pub proof fn lemma_toggle_row_twice(d: DirV, r: int)
    requires
        d.wf(),
        1 <= r <= d.entries.len(),
    ensures
        toggle_row(toggle_row(d, r), r).entries == d.entries,
        toggle_row(toggle_row(d, r), r).selection == min(
            d.selection + 2,
            d.entries.len() as int,
        ),
{
    let once = flip_mark(d.entries, r);
    let twice = flip_mark(once, r);
    assert(once[r - 1] == (EntryV { mark: !d.entries[r - 1].mark, ..d.entries[r - 1] }));
    assert(twice[r - 1] =~= d.entries[r - 1]);
    assert(twice =~= d.entries);
}

} // verus!
