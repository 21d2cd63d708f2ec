//! Normalising the path that scopes a query.

use vstd::prelude::*;

use crate::text::{chars_of, push_char, string_of};

verus! {

/// Adds a finished path component unless it is empty or `.`.
pub open spec fn keep(done: Seq<Seq<char>>, cur: Seq<char>) -> Seq<Seq<char>> {
    if cur.len() == 0 || (cur.len() == 1 && cur[0] == '.') {
        done
    } else {
        done.push(cur)
    }
}

/// The components finished so far in `s`, and the one being read.
pub open spec fn scan_components(s: Seq<char>) -> (Seq<Seq<char>>, Seq<char>)
    decreases s.len(),
{
    if s.len() == 0 {
        (Seq::empty(), Seq::empty())
    } else {
        let (done, cur) = scan_components(s.drop_last());
        if s.last() == '/' {
            (keep(done, cur), Seq::empty())
        } else {
            (done, cur.push(s.last()))
        }
    }
}

/// The meaningful components of a path: `/`-separated, without empty or
/// `.` components.
pub open spec fn components(s: Seq<char>) -> Seq<Seq<char>> {
    keep(scan_components(s).0, scan_components(s).1)
}

/// Components joined by `/`.
pub open spec fn join_components(cs: Seq<Seq<char>>) -> Seq<char>
    decreases cs.len(),
{
    if cs.len() == 0 {
        Seq::empty()
    } else if cs.len() == 1 {
        cs[0]
    } else {
        join_components(cs.drop_last()) + seq!['/'] + cs.last()
    }
}

pub open spec fn is_absolute(s: Seq<char>) -> bool {
    s.len() > 0 && s[0] == '/'
}

/// Joined components, with a leading `/` when `s` is absolute.
pub open spec fn rooted(s: Seq<char>, cs: Seq<Seq<char>>) -> Seq<char> {
    if is_absolute(s) {
        seq!['/'] + join_components(cs)
    } else {
        join_components(cs)
    }
}

/// A path that restricts a query: the normalised path, its parent
/// directory and its last component.
pub struct PathScope {
    pub path: String,
    pub directory: String,
    pub name: String,
}

/// The normalised path of `s`.
pub open spec fn scope_path(s: Seq<char>) -> Seq<char> {
    rooted(s, components(s))
}

/// The parent directory of `s`: `/` or empty for a single component.
pub open spec fn scope_directory(s: Seq<char>) -> Seq<char> {
    let cs = components(s);
    if cs.len() == 1 && is_absolute(s) {
        seq!['/']
    } else {
        rooted(s, cs.drop_last())
    }
}

/// The last component of `s`.
pub open spec fn scope_name(s: Seq<char>) -> Seq<char> {
    components(s).last()
}

fn keep_component(done: &mut Vec<Vec<char>>, cur: Vec<char>)
    ensures
        final(done)@.map_values(|c: Vec<char>| c@) == keep(
            old(done)@.map_values(|c: Vec<char>| c@),
            cur@,
        ),
{
    let ghost before = done@.map_values(|c: Vec<char>| c@);
    if cur.len() == 0 || (cur.len() == 1 && cur[0] == '.') {
    } else {
        let ghost c = cur@;
        done.push(cur);
        assert(done@.map_values(|c: Vec<char>| c@) =~= before.push(c));
    }
}

pub(crate) fn split_components(s: &Vec<char>) -> (r: Vec<Vec<char>>)
    ensures
        r@.map_values(|c: Vec<char>| c@) == components(s@),
{
    let mut done: Vec<Vec<char>> = Vec::new();
    let mut cur: Vec<char> = Vec::new();
    let mut i: usize = 0;
    while i < s.len()
        invariant
            i <= s.len(),
            (done@.map_values(|c: Vec<char>| c@), cur@) == scan_components(s@.subrange(0, i as int)),
        decreases s.len() - i,
    {
        assert(s@.subrange(0, i + 1).drop_last() =~= s@.subrange(0, i as int));
        if s[i] == '/' {
            let finished = cur;
            cur = Vec::new();
            keep_component(&mut done, finished);
        } else {
            cur.push(s[i]);
        }
        i = i + 1;
    }
    assert(s@.subrange(0, s.len() as int) =~= s@);
    keep_component(&mut done, cur);
    done
}

pub(crate) fn join(cs: &Vec<Vec<char>>, n: usize, absolute: bool) -> (r: String)
    requires
        n <= cs.len(),
    ensures
        r@ == (if absolute {
            seq!['/'] + join_components(cs@.map_values(|c: Vec<char>| c@).subrange(0, n as int))
        } else {
            join_components(cs@.map_values(|c: Vec<char>| c@).subrange(0, n as int))
        }),
{
    let ghost v = cs@.map_values(|c: Vec<char>| c@);
    let mut r = String::new();
    if absolute {
        push_char(&mut r, '/');
    }
    let ghost lead = r@;
    let mut k: usize = 0;
    while k < n
        invariant
            k <= n <= cs.len(),
            v == cs@.map_values(|c: Vec<char>| c@),
            r@ == lead + join_components(v.subrange(0, k as int)),
        decreases n - k,
    {
        let ghost before = r@;
        if k > 0 {
            push_char(&mut r, '/');
        }
        let part = &cs[k];
        let mut j: usize = 0;
        let ghost mid = r@;
        while j < part.len()
            invariant
                j <= part.len(),
                r@ == mid + part@.subrange(0, j as int),
            decreases part.len() - j,
        {
            push_char(&mut r, part[j]);
            j = j + 1;
            assert(r@ =~= mid + part@.subrange(0, j as int));
        }
        proof {
            assert(part@.subrange(0, part.len() as int) =~= part@);
            let w = v.subrange(0, k + 1);
            assert(w.drop_last() =~= v.subrange(0, k as int));
            assert(w.last() == part@);
            if k == 0 {
                assert(r@ =~= lead + join_components(w));
            } else {
                assert(r@ =~= lead + join_components(w));
            }
        }
        k = k + 1;
    }
    r
}

impl PathScope {
    /// The scope that a path gives, or `None` for a path with no meaningful
    /// component (the filesystem root), which restricts nothing.
    pub fn from_text(text: &str) -> (r: Option<PathScope>)
        ensures
            match r {
                None => components(text@).len() == 0,
                Some(p) => components(text@).len() > 0 && p.path@ == scope_path(text@)
                    && p.directory@ == scope_directory(text@) && p.name@ == scope_name(text@),
            },
    {
        let s = chars_of(text);
        let cs = split_components(&s);
        let ghost v = cs@.map_values(|c: Vec<char>| c@);
        let n = cs.len();
        if n == 0 {
            return None;
        }
        let absolute = s.len() > 0 && s[0] == '/';
        assert(v.subrange(0, n as int) =~= v);
        let path = join(&cs, n, absolute);
        let directory = if n == 1 && absolute {
            let mut d = String::new();
            push_char(&mut d, '/');
            d
        } else {
            assert(v.subrange(0, n - 1) =~= v.drop_last());
            join(&cs, n - 1, absolute)
        };
        let name = string_of(&cs[n - 1]);
        Some(PathScope { path, directory, name })
    }
}

} // verus!
