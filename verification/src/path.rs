//! Paths as text: joining a name to a directory, and the final component of
//! a path. The separator is `/`.

use vstd::prelude::*;
use vstd::string::*;

verus! {

/// The path of `name` under the directory `base`: `name` itself where it
/// starts at the root, otherwise `base` and `name` with one separator
/// between them, which is left out where `base` is empty or ends in one.
pub open spec fn joined(base: Seq<char>, name: Seq<char>) -> Seq<char> {
    if name.len() > 0 && name[0] == '/' {
        name
    } else if base.len() == 0 || base.last() == '/' {
        base + name
    } else {
        base + seq!['/'] + name
    }
}

/// Whether the characters of `path` from `start` up to `end` are its final
/// component: they hold no separator, a separator or the start of the path
/// stands before them, and only separators follow them.
pub open spec fn is_final_span(path: Seq<char>, start: int, end: int) -> bool {
    &&& 0 <= start < end <= path.len()
    &&& forall|k: int| start <= k < end ==> path[k] != '/'
    &&& start > 0 ==> path[start - 1] == '/'
    &&& forall|k: int| end <= k < path.len() ==> path[k] == '/'
}

/// Whether `path` holds anything but separators.
pub open spec fn has_component(path: Seq<char>) -> bool {
    exists|start: int, end: int| is_final_span(path, start, end)
}

/// The final component of `path`. A path of separators only has the
/// separator as its final component, and the empty path the empty text.
pub open spec fn final_component(path: Seq<char>) -> Seq<char> {
    if has_component(path) {
        let (start, end) = choose|start: int, end: int| is_final_span(path, start, end);
        path.subrange(start, end)
    } else if path.len() > 0 {
        seq!['/']
    } else {
        Seq::empty()
    }
}

/// A path has one final component only.
pub proof fn lemma_final_span_unique(path: Seq<char>, s1: int, e1: int, s2: int, e2: int)
    requires
        is_final_span(path, s1, e1),
        is_final_span(path, s2, e2),
    ensures
        s1 == s2,
        e1 == e2,
{
    if e1 < e2 {
        assert(path[e2 - 1] != '/');
    }
    if e2 < e1 {
        assert(path[e1 - 1] != '/');
    }
    if s1 < s2 {
        assert(path[s2 - 1] == '/');
    }
    if s2 < s1 {
        assert(path[s1 - 1] == '/');
    }
}

/// Joins `name` to the directory `base`.
pub fn join(base: &str, name: &str) -> (path: String)
    ensures
        path@ == joined(base@, name@),
{
    proof {
        reveal_strlit("/");
    }
    if name.unicode_len() > 0 && name.get_char(0) == '/' {
        return name.to_owned();
    }
    let len = base.unicode_len();
    let mut path = base.to_owned();
    if len > 0 && base.get_char(len - 1) != '/' {
        path.append("/");
        assert("/"@ =~= seq!['/']);
    }
    path.append(name);
    path
}

/// The final component of `path`, as a part of it.
pub fn last_component(path: &str) -> (name: &str)
    ensures
        name@ == final_component(path@),
{
    let total = path.unicode_len();
    let mut start: usize = 0;
    let mut end: usize = 0;
    let mut i: usize = 0;
    for c in it: path.chars()
        invariant
            i == it.index(),
            it.seq() == path@,
            total == path@.len(),
            i <= total,
            start <= end <= i,
            end > 0 ==> is_final_span(path@.take(i as int), start as int, end as int),
            end == 0 ==> forall|k: int| 0 <= k < i ==> path@[k] == '/',
    {
        assert(c == path@[i as int]);
        let ghost seen = path@.take(i as int);
        let ghost more = path@.take(i + 1);
        assert(forall|k: int| 0 <= k < i ==> seen[k] == more[k]);
        if c != '/' {
            if end < i || i == 0 {
                start = i;
            }
            end = i + 1;
        }
        i = i + 1;
    }
    assert(path@.take(total as int) =~= path@);
    if end > 0 {
        proof {
            let (s, e) = choose|s: int, e: int| is_final_span(path@, s, e);
            lemma_final_span_unique(path@, s, e, start as int, end as int);
        }
        path.substring_char(start, end)
    } else {
        proof {
            reveal_strlit("/");
            reveal_strlit("");
            assert forall|s: int, e: int| !is_final_span(path@, s, e) by {
                if is_final_span(path@, s, e) {
                    assert(path@[s] != '/');
                }
            }
        }
        if total > 0 {
            assert("/"@ =~= seq!['/']);
            "/"
        } else {
            assert(""@ =~= Seq::<char>::empty());
            ""
        }
    }
}

} // verus!
