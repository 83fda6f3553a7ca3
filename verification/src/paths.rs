//! Path algebra over plain strings.
//!
//! The engine models filesystem paths as strings whose components are joined
//! by `/`. Everything here is ordinary string computation with exact
//! contracts; no filesystem is consulted.

use vstd::prelude::*;
use vstd::string::*;

verus! {

/// True when the path begins with a separator, i.e. names an absolute
/// location rather than one relative to some root.
pub open spec fn spec_is_absolute(s: Seq<char>) -> bool {
    s.len() > 0 && s[0] == '/'
}

pub fn is_absolute(s: &str) -> (r: bool)
    ensures
        r == spec_is_absolute(s@),
{
    if s.unicode_len() == 0 {
        false
    } else {
        s.get_char(0) == '/'
    }
}

/// The result of joining `b` onto `a`: an absolute `b` stands alone, any
/// other `b` is appended to `a` behind a separator.
pub open spec fn spec_join(a: Seq<char>, b: Seq<char>) -> Seq<char> {
    if spec_is_absolute(b) {
        b
    } else {
        a + seq!['/'] + b
    }
}

pub fn path_join(a: &str, b: &str) -> (r: String)
    ensures
        r@ == spec_join(a@, b@),
{
    proof {
        reveal_strlit("/");
    }
    if is_absolute(b) {
        String::from_str(b)
    } else {
        let mut s = String::from_str(a);
        s.append("/");
        s.append(b);
        proof {
            assert(s@ =~= a@ + seq!['/'] + b@);
        }
        s
    }
}

/// The path with its leading separators removed: how a declared path is
/// read when it may only name a location relative to some root.
pub open spec fn spec_strip_leading_slashes(s: Seq<char>) -> Seq<char>
    decreases s.len(),
{
    if s.len() > 0 && s[0] == '/' {
        spec_strip_leading_slashes(s.drop_first())
    } else {
        s
    }
}

/// The result of joining a declared path onto `a` as a relative path:
/// leading separators of `b` are dropped, so the result always stays under
/// `a`, whatever `b` declares.
pub open spec fn spec_join_rel(a: Seq<char>, b: Seq<char>) -> Seq<char> {
    a + seq!['/'] + spec_strip_leading_slashes(b)
}

pub fn path_join_rel(a: &str, b: &str) -> (r: String)
    ensures
        r@ == spec_join_rel(a@, b@),
{
    let n = b.unicode_len();
    let mut i: usize = 0;
    proof {
        assert(b@.skip(0) =~= b@);
    }
    while i < n
        invariant
            i <= n,
            n == b@.len(),
            spec_strip_leading_slashes(b@) == spec_strip_leading_slashes(b@.skip(i as int)),
        ensures
            i <= n,
            n == b@.len(),
            spec_strip_leading_slashes(b@) == spec_strip_leading_slashes(b@.skip(i as int)),
            i < n ==> b@[i as int] != '/',
        decreases n - i,
    {
        if b.get_char(i) != '/' {
            break ;
        }
        proof {
            assert(b@.skip(i as int)[0] == b@[i as int]);
            assert(b@.skip(i as int).drop_first() =~= b@.skip(i + 1));
        }
        i = i + 1;
    }
    proof {
        if i < n {
            assert(b@.skip(i as int)[0] == b@[i as int]);
            assert(spec_strip_leading_slashes(b@.skip(i as int)) == b@.skip(i as int));
        } else {
            assert(b@.skip(n as int) =~= Seq::<char>::empty());
        }
    }
    let mut s = String::from_str(a);
    s.append("/");
    s.append(b.substring_char(i, n));
    proof {
        reveal_strlit("/");
        assert("/"@ =~= seq!['/']);
        assert(b@.subrange(i as int, n as int) =~= b@.skip(i as int));
        assert(s@ =~= spec_join_rel(a@, b@));
    }
    s
}

/// A relative join always stays under its left-hand root: the result
/// carries the root followed by a separator as its prefix, whatever the
/// declared right-hand path holds.
pub proof fn lemma_join_rel_stays_inside(a: Seq<char>, b: Seq<char>)
    ensures
        spec_join_rel(a, b).len() > a.len(),
        spec_join_rel(a, b).take(a.len() as int + 1) == a + seq!['/'],
{
    assert(spec_join_rel(a, b).take(a.len() as int + 1) =~= a + seq!['/']);
}

/// The index of the last separator in `s`, if any.
pub open spec fn spec_last_slash(s: Seq<char>) -> Option<int>
    decreases s.len(),
{
    if s.len() == 0 {
        None
    } else if s[s.len() - 1] == '/' {
        Some(s.len() - 1)
    } else {
        spec_last_slash(s.drop_last())
    }
}

pub fn last_slash_index(s: &str) -> (r: Option<usize>)
    ensures
        match r {
            Some(i) => i < s@.len() && spec_last_slash(s@) == Some(i as int),
            None => spec_last_slash(s@) is None,
        },
{
    let n = s.unicode_len();
    let mut i = n;
    proof {
        assert(s@.take(n as int) =~= s@);
    }
    while i > 0
        invariant
            i <= n,
            n == s@.len(),
            spec_last_slash(s@) == spec_last_slash(s@.take(i as int)),
        decreases i,
    {
        let c = s.get_char(i - 1);
        proof {
            assert(s@.take(i as int).last() == s@[i - 1]);
        }
        if c == '/' {
            return Some(i - 1);
        }
        proof {
            assert(s@.take(i as int).drop_last() =~= s@.take(i - 1));
        }
        i = i - 1;
    }
    proof {
        assert(s@.take(0) =~= Seq::<char>::empty());
    }
    None
}

/// The prefix of `s` before its last separator; empty when `s` has none.
pub open spec fn spec_parent(s: Seq<char>) -> Seq<char> {
    match spec_last_slash(s) {
        Some(i) => s.take(i),
        None => Seq::empty(),
    }
}

pub fn parent_of(s: &str) -> (r: String)
    ensures
        r@ == spec_parent(s@),
{
    match last_slash_index(s) {
        Some(i) => String::from_str(s.substring_char(0, i)),
        None => String::new(),
    }
}

/// The final component of `s`: everything after its last separator.
pub open spec fn spec_last_component(s: Seq<char>) -> Seq<char> {
    match spec_last_slash(s) {
        Some(i) => s.skip(i + 1),
        None => s,
    }
}

pub fn last_component_of(s: &str) -> (r: String)
    ensures
        r@ == spec_last_component(s@),
{
    let n = s.unicode_len();
    match last_slash_index(s) {
        Some(i) => {
            let r = String::from_str(s.substring_char(i + 1, n));
            proof {
                assert(s@.subrange(spec_last_slash(s@)->0 + 1, n as int) =~= s@.skip(
                    spec_last_slash(s@)->0 + 1,
                ));
            }
            r
        },
        None => String::from_str(s),
    }
}

/// True when the path's final component carries a `.git` extension: the
/// component ends in `.git` and has a nonempty stem before the dot.
pub open spec fn spec_has_git_extension(s: Seq<char>) -> bool {
    let c = spec_last_component(s);
    c.len() > 4 && c.subrange(c.len() - 4, c.len() as int) == seq!['.', 'g', 'i', 't']
}

pub fn has_git_extension(s: &str) -> (r: bool)
    ensures
        r == spec_has_git_extension(s@),
{
    let c = last_component_of(s);
    let m = c.as_str().unicode_len();
    if m <= 4 {
        return false;
    }
    let c0 = c.as_str().get_char(m - 4);
    let c1 = c.as_str().get_char(m - 3);
    let c2 = c.as_str().get_char(m - 2);
    let c3 = c.as_str().get_char(m - 1);
    let hit = c0 == '.' && c1 == 'g' && c2 == 'i' && c3 == 't';
    proof {
        let tail = c@.subrange(m - 4, m as int);
        let pat = seq!['.', 'g', 'i', 't'];
        if hit {
            assert(tail =~= pat);
        } else {
            assert(tail[0] == c@[m - 4] && tail[1] == c@[m - 3] && tail[2] == c@[m - 2] && tail[3]
                == c@[m - 1]);
        }
    }
    hit
}

/// The components joined by `/`, with no leading or trailing separator.
pub open spec fn spec_join_components(cs: Seq<Seq<char>>) -> Seq<char>
    decreases cs.len(),
{
    if cs.len() == 0 {
        Seq::empty()
    } else if cs.len() == 1 {
        cs[0]
    } else {
        spec_join_components(cs.drop_last()) + seq!['/'] + cs.last()
    }
}

/// The views of a vector of path components.
pub open spec fn spec_components_view(cs: Seq<String>) -> Seq<Seq<char>> {
    cs.map_values(|c: String| c@)
}

pub fn join_components(cs: &Vec<String>) -> (r: String)
    ensures
        r@ == spec_join_components(spec_components_view(cs@)),
{
    proof {
        reveal_strlit("/");
    }
    let ghost gs = spec_components_view(cs@);
    let mut s = String::new();
    let mut i: usize = 0;
    while i < cs.len()
        invariant
            i <= cs.len(),
            gs == spec_components_view(cs@),
            gs.len() == cs@.len(),
            s@ == spec_join_components(gs.take(i as int)),
        decreases cs.len() - i,
    {
        let ghost s0 = s@;
        if i > 0 {
            s.append("/");
        }
        s.append(cs[i].as_str());
        proof {
            assert(gs.take(i + 1).drop_last() =~= gs.take(i as int));
            assert(gs.take(i + 1).last() == gs[i as int]);
            if i == 0 {
                assert(s@ =~= spec_join_components(gs.take(1)));
            } else {
                reveal_strlit("/");
                assert("/"@ =~= seq!['/']);
                assert(gs[i as int] == cs@[i as int]@);
                assert(s@ =~= s0 + seq!['/'] + gs[i as int]);
            }
        }
        i = i + 1;
    }
    proof {
        assert(gs.take(gs.len() as int) =~= gs);
    }
    s
}

/// True when some component is the version-control metadata directory.
pub open spec fn spec_has_vcs_component(cs: Seq<Seq<char>>) -> bool {
    exists|i: int| 0 <= i < cs.len() && cs[i] == ".git"@
}

pub fn has_vcs_component(cs: &Vec<String>) -> (r: bool)
    ensures
        r == spec_has_vcs_component(spec_components_view(cs@)),
{
    let ghost gs = spec_components_view(cs@);
    let dotgit = String::from_str(".git");
    let mut i: usize = 0;
    while i < cs.len()
        invariant
            i <= cs.len(),
            gs == spec_components_view(cs@),
            gs.len() == cs@.len(),
            dotgit@ == ".git"@,
            forall|j: int| 0 <= j < i ==> gs[j] != ".git"@,
        decreases cs.len() - i,
    {
        let item: &String = &cs[i];
        if item.eq(&dotgit) {
            proof {
                assert(gs[i as int] == ".git"@);
            }
            return true;
        }
        i = i + 1;
    }
    false
}

/// A well-formed relative-path component: nonempty and free of separators.
pub open spec fn spec_wf_component(c: Seq<char>) -> bool {
    c.len() > 0 && forall|i: int| 0 <= i < c.len() ==> c[i] != '/'
}

/// A well-formed relative path: at least one component, all well formed.
pub open spec fn spec_wf_components(cs: Seq<Seq<char>>) -> bool {
    cs.len() > 0 && forall|i: int| 0 <= i < cs.len() ==> spec_wf_component(#[trigger] cs[i])
}

fn wf_component(c: &String) -> (r: bool)
    ensures
        r == spec_wf_component(c@),
{
    let n = c.as_str().unicode_len();
    if n == 0 {
        return false;
    }
    let mut i: usize = 0;
    while i < n
        invariant
            i <= n,
            n == c@.len(),
            forall|j: int| 0 <= j < i ==> c@[j] != '/',
        decreases n - i,
    {
        if c.as_str().get_char(i) == '/' {
            return false;
        }
        i = i + 1;
    }
    true
}

pub fn wf_components(cs: &Vec<String>) -> (r: bool)
    ensures
        r == spec_wf_components(spec_components_view(cs@)),
{
    let ghost gs = spec_components_view(cs@);
    if cs.len() == 0 {
        return false;
    }
    let mut i: usize = 0;
    while i < cs.len()
        invariant
            i <= cs.len(),
            gs == spec_components_view(cs@),
            gs.len() == cs@.len(),
            forall|j: int| 0 <= j < i ==> spec_wf_component(#[trigger] gs[j]),
        decreases cs.len() - i,
    {
        if !wf_component(&cs[i]) {
            proof {
                assert(!spec_wf_component(gs[i as int]));
            }
            return false;
        }
        i = i + 1;
    }
    true
}

/// A relative path built from well-formed components never starts with a
/// separator, so it is never absolute.
pub proof fn lemma_wf_join_not_absolute(cs: Seq<Seq<char>>)
    requires
        spec_wf_components(cs),
    ensures
        !spec_is_absolute(spec_join_components(cs)),
    decreases cs.len(),
{
    if cs.len() == 1 {
        assert(spec_join_components(cs) == cs[0]);
    } else {
        let head = cs.drop_last();
        if head.len() > 0 {
            assert(spec_wf_components(head)) by {
                assert(forall|i: int|
                    0 <= i < head.len() ==> spec_wf_component(#[trigger] head[i]));
            }
            lemma_wf_join_not_absolute(head);
            assert(spec_join_components(cs)[0] == spec_join_components(head)[0]);
        }
    }
}

} // verus!
