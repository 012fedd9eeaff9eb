//! Text helpers shared by the panes: lexicographic path order,
//! case-insensitive prefix tests, path joining and parents, and the
//! `%p` placeholder of command templates.

use vstd::prelude::*;
use vstd::string::StrSliceExecFns;
use vstd::string::StringExecFns;

verus! {

/// The characters that `str::to_lowercase` returns for `s`: a function of
/// the characters of `s` alone.
pub uninterp spec fn lower_of(s: Seq<char>) -> Seq<char>;

/// Relies on `str::to_lowercase` (std): the result depends on the characters
/// of the input alone, and lowercasing the empty string gives the empty string.
pub assume_specification[ str::to_lowercase ](s: &str) -> (r: String)
    ensures
        r@ == lower_of(s@),
        s@.len() == 0 ==> r@.len() == 0,
;

/// Relies on `String::push` (std): appends the character to the end of the
/// string.
pub assume_specification[ String::push ](s: &mut String, c: char)
    ensures
        final (s)@ == old(s)@.push(c),
;

/// Relies on `String::pop` (std): removes and returns the last character, or
/// returns `None` and leaves the string unchanged when it is empty.
pub assume_specification[ String::pop ](s: &mut String) -> (r: Option<char>)
    ensures
        old(s)@.len() == 0 ==> final (s)@ == old(s)@ && r is None,
        old(s)@.len() > 0 ==> final (s)@ == old(s)@.drop_last() && r == Some(old(s)@.last()),
;

/// `a` comes no later than `b` in lexicographic order on character values.
pub open spec fn lex_le(a: Seq<char>, b: Seq<char>) -> bool
    decreases a.len(),
{
    if a.len() == 0 {
        true
    } else if b.len() == 0 {
        false
    } else if (a[0] as u32) < (b[0] as u32) {
        true
    } else if (b[0] as u32) < (a[0] as u32) {
        false
    } else {
        lex_le(a.drop_first(), b.drop_first())
    }
}

pub proof fn lemma_lex_le_total(a: Seq<char>, b: Seq<char>)
    ensures
        lex_le(a, b) || lex_le(b, a),
    decreases a.len(),
{
    if a.len() > 0 && b.len() > 0 && (a[0] as u32) == (b[0] as u32) {
        lemma_lex_le_total(a.drop_first(), b.drop_first());
    }
}

pub proof fn lemma_lex_le_trans(a: Seq<char>, b: Seq<char>, c: Seq<char>)
    requires
        lex_le(a, b),
        lex_le(b, c),
    ensures
        lex_le(a, c),
    decreases a.len(),
{
    if a.len() > 0 && b.len() > 0 && c.len() > 0 && (a[0] as u32) == (b[0] as u32) && (b[0] as u32)
        == (c[0] as u32) {
        lemma_lex_le_trans(a.drop_first(), b.drop_first(), c.drop_first());
    }
}

/// Decides `lex_le` on two string slices.
pub fn str_lex_le(a: &str, b: &str) -> (r: bool)
    ensures
        r == lex_le(a@, b@),
{
    let a_len = a.unicode_len();
    let b_len = b.unicode_len();
    let mut i: usize = 0;
    proof {
        assert(a@.skip(0) =~= a@);
        assert(b@.skip(0) =~= b@);
    }
    loop
        invariant
            i <= a_len,
            i <= b_len,
            a_len == a@.len(),
            b_len == b@.len(),
            lex_le(a@, b@) == lex_le(a@.skip(i as int), b@.skip(i as int)),
        decreases a_len - i,
    {
        if i == a_len {
            return true;
        }
        if i == b_len {
            return false;
        }
        let ca = a.get_char(i);
        let cb = b.get_char(i);
        if (ca as u32) < (cb as u32) {
            return true;
        }
        if (cb as u32) < (ca as u32) {
            return false;
        }
        proof {
            assert(a@.skip(i as int).drop_first() =~= a@.skip(i + 1 as int));
            assert(b@.skip(i as int).drop_first() =~= b@.skip(i + 1 as int));
        }
        i = i + 1;
    }
}

/// `p` is an initial segment of `s`.
pub open spec fn is_prefix(p: Seq<char>, s: Seq<char>) -> bool {
    p.len() <= s.len() && p =~= s.take(p.len() as int)
}

/// Decides whether `s` starts with `p`.
pub fn str_starts_with(s: &str, p: &str) -> (r: bool)
    ensures
        r == is_prefix(p@, s@),
{
    let p_len = p.unicode_len();
    let s_len = s.unicode_len();
    if p_len > s_len {
        return false;
    }
    let mut i: usize = 0;
    while i < p_len
        invariant
            i <= p_len <= s_len,
            p_len == p@.len(),
            s_len == s@.len(),
            forall|j: int| 0 <= j < i ==> p@[j] == s@[j],
        decreases p_len - i,
    {
        let cp = p.get_char(i);
        let cs = s.get_char(i);
        if cp != cs {
            assert(!is_prefix(p@, s@)) by {
                assert(p@[i as int] != s@.take(p@.len() as int)[i as int]);
            }
            return false;
        }
        i = i + 1;
    }
    proof {
        assert(p@ =~= s@.take(p@.len() as int));
    }
    true
}

/// Whether the two slices hold the same characters.
pub fn str_eq(a: &str, b: &str) -> (r: bool)
    ensures
        r == (a@ == b@),
{
    let a_len = a.unicode_len();
    let b_len = b.unicode_len();
    if a_len != b_len {
        return false;
    }
    let mut i: usize = 0;
    while i < a_len
        invariant
            i <= a_len,
            a_len == a@.len(),
            a_len == b@.len(),
            forall|j: int| 0 <= j < i ==> a@[j] == b@[j],
        decreases a_len - i,
    {
        if a.get_char(i) != b.get_char(i) {
            return false;
        }
        i = i + 1;
    }
    proof {
        assert(a@ =~= b@);
    }
    true
}

/// The path of `name` inside directory `dir`: a separator is added unless
/// `dir` already ends with one.
pub open spec fn join_path(dir: Seq<char>, name: Seq<char>) -> Seq<char> {
    if dir.len() > 0 && dir.last() == '/' {
        dir + name
    } else {
        dir + seq!['/'] + name
    }
}

/// Joins a directory path and an entry name.
pub fn join(dir: &str, name: &str) -> (r: String)
    ensures
        r@ == join_path(dir@, name@),
{
    let mut r = String::from_str(dir);
    let n = dir.unicode_len();
    if n == 0 || dir.get_char(n - 1) != '/' {
        r.push('/');
        proof {
            assert(dir@ + seq!['/'] =~= r@);
        }
    }
    r.append(name);
    proof {
        assert(r@ =~= join_path(dir@, name@));
    }
    r
}

/// The position of the last `/` in `p`, if any.
pub open spec fn rfind_slash(p: Seq<char>) -> Option<int>
    decreases p.len(),
{
    if p.len() == 0 {
        None
    } else if p.last() == '/' {
        Some(p.len() - 1)
    } else {
        rfind_slash(p.drop_last())
    }
}

/// The parent of a path written with `/` separators: everything before the
/// last separator, the root `/` when that separator starts the path, and
/// nothing for the root itself or a path without separators.
pub open spec fn parent_of(p: Seq<char>) -> Option<Seq<char>> {
    match rfind_slash(p) {
        Option::None => Option::None,
        Option::Some(i) => if i == 0 {
            if p.len() == 1 {
                Option::None
            } else {
                Option::Some(seq!['/'])
            }
        } else {
            Option::Some(p.take(i))
        },
    }
}

/// The view of an optional string.
pub open spec fn opt_str_view(o: Option<String>) -> Option<Seq<char>> {
    match o {
        Option::None => Option::None,
        Option::Some(s) => Option::Some(s@),
    }
}

/// Computes the parent directory of a path, per `parent_of`.
pub fn parent_dir(p: &str) -> (r: Option<String>)
    ensures
        opt_str_view(r) == parent_of(p@),
{
    let n = p.unicode_len();
    let mut i: usize = n;
    proof {
        assert(p@.take(n as int) =~= p@);
    }
    loop
        invariant
            i <= n,
            n == p@.len(),
            rfind_slash(p@) == rfind_slash(p@.take(i as int)),
        decreases i,
    {
        proof {
            assert(p@.take(i as int).len() == i);
        }
        if i == 0 {
            return None;
        }
        let c = p.get_char(i - 1);
        proof {
            assert(p@.take(i as int).last() == p@[i - 1]);
            assert(p@.take(i as int).drop_last() =~= p@.take(i - 1 as int));
        }
        if c == '/' {
            assert(rfind_slash(p@) == Some(i - 1 as int));
            if i == 1 {
                if n == 1 {
                    return None;
                }
                let root = p.substring_char(0, 1);
                proof {
                    assert(p@.take(1int) =~= seq!['/']);
                }
                return Some(String::from_str(root));
            }
            let par = p.substring_char(0, i - 1);
            return Some(String::from_str(par));
        }
        i = i - 1;
    }
}

/// The template with every `%p` replaced by `path`, scanning left to right.
pub open spec fn subst_placeholder(t: Seq<char>, path: Seq<char>) -> Seq<char>
    decreases t.len(),
{
    if t.len() == 0 {
        Seq::empty()
    } else if t.len() >= 2 && t[0] == '%' && t[1] == 'p' {
        path + subst_placeholder(t.skip(2), path)
    } else {
        seq![t[0]] + subst_placeholder(t.skip(1), path)
    }
}

/// Builds the argument of an external command: the template with each `%p`
/// placeholder replaced by `path`.
pub fn render_template(t: &str, path: &str) -> (r: String)
    ensures
        r@ == subst_placeholder(t@, path@),
{
    let n = t.unicode_len();
    let mut r = String::new();
    let mut i: usize = 0;
    proof {
        assert(t@.skip(0) =~= t@);
        assert(r@ + subst_placeholder(t@, path@) =~= subst_placeholder(t@, path@));
    }
    while i < n
        invariant
            i <= n,
            n == t@.len(),
            r@ + subst_placeholder(t@.skip(i as int), path@) == subst_placeholder(t@, path@),
        decreases n - i,
    {
        let ghost pre = r@;
        let ghost suffix = t@.skip(i as int);
        let c = t.get_char(i);
        if c == '%' && i + 1 < n && t.get_char(i + 1) == 'p' {
            r.append(path);
            proof {
                assert(suffix.skip(2) =~= t@.skip(i + 2 as int));
                assert((pre + path@) + subst_placeholder(t@.skip(i + 2 as int), path@) =~= pre + (
                path@ + subst_placeholder(suffix.skip(2), path@)));
            }
            i = i + 2;
        } else {
            r.push(c);
            proof {
                assert(suffix.skip(1) =~= t@.skip(i + 1 as int));
                assert(suffix[0] == c);
                assert(pre.push(c) + subst_placeholder(t@.skip(i + 1 as int), path@) =~= pre + (
                seq![suffix[0]] + subst_placeholder(suffix.skip(1), path@)));
            }
            i = i + 1;
        }
    }
    proof {
        assert(t@.skip(n as int) =~= Seq::<char>::empty());
        assert(r@ + Seq::<char>::empty() =~= r@);
    }
    r
}

} // verus!
