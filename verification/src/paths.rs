//! File names and extensions of `/`-separated paths, as `std::path::Path`
//! reads them on Unix: the last normal component is the file name; its
//! extension follows the last dot unless that dot opens the name.
use vstd::prelude::*;

use crate::strings::{lower, lower_chars, slice_chars, string_from, to_chars};

verus! {

/// The index of the last occurrence of `c` in `s`, or -1.
pub open spec fn last_index(s: Seq<char>, c: char) -> int
    decreases s.len(),
{
    if s.len() == 0 {
        -1
    } else if s.last() == c {
        s.len() - 1
    } else {
        last_index(s.drop_last(), c)
    }
}

/// The index of the first occurrence of `c` in `s`, or -1.
pub open spec fn first_index(s: Seq<char>, c: char) -> int
    decreases s.len(),
{
    if s.len() == 0 {
        -1
    } else if s[0] == c {
        0
    } else {
        let r = first_index(s.drop_first(), c);
        if r < 0 {
            -1
        } else {
            r + 1
        }
    }
}

/// The part of `s` before the first `c` (all of `s` when there is none).
pub open spec fn before_first(s: Seq<char>, c: char) -> Seq<char> {
    let i = first_index(s, c);
    if i < 0 {
        s
    } else {
        s.subrange(0, i)
    }
}

/// The file name of a path: its last component that is neither empty nor
/// `.`; `None` when there is none or when it is `..`.
pub open spec fn file_name(s: Seq<char>) -> Option<Seq<char>>
    decreases s.len(),
{
    let i = last_index(s, '/');
    let seg = s.subrange(i + 1, s.len() as int);
    if seg.len() == 0 || seg == seq!['.'] {
        if i < 0 {
            None
        } else {
            proof {
                lemma_last_index_bounds(s, '/');
            }
            file_name(s.subrange(0, i))
        }
    } else if seg == seq!['.', '.'] {
        None
    } else {
        Some(seg)
    }
}

/// The extension of a file name: what follows its last dot, when that dot
/// is not the first character.
pub open spec fn name_extension(n: Seq<char>) -> Option<Seq<char>> {
    let i = last_index(n, '.');
    if i <= 0 {
        None
    } else {
        Some(n.subrange(i + 1, n.len() as int))
    }
}

/// The stem of a file name: the name without its extension and its dot.
pub open spec fn name_stem(n: Seq<char>) -> Seq<char> {
    let i = last_index(n, '.');
    if i <= 0 {
        n
    } else {
        n.subrange(0, i)
    }
}

/// The extension of the file name of a path.
pub open spec fn path_extension(s: Seq<char>) -> Option<Seq<char>> {
    match file_name(s) {
        Some(n) => name_extension(n),
        None => None,
    }
}

/// The stem of the file name of a path.
pub open spec fn path_stem(s: Seq<char>) -> Option<Seq<char>> {
    match file_name(s) {
        Some(n) => Some(name_stem(n)),
        None => None,
    }
}

/// The lower-cased extension of a path, the form in which input kinds are
/// matched.
pub open spec fn lower_extension(s: Seq<char>) -> Option<Seq<char>> {
    match path_extension(s) {
        Some(e) => Some(lower(e)),
        None => None,
    }
}

/// The index of the last `c` in `v[0..end]`.
pub fn last_index_in(v: &Vec<char>, end: usize, c: char) -> (r: Option<usize>)
    requires
        end <= v.len(),
    ensures
        match r {
            Some(i) => i as int == last_index(v@.subrange(0, end as int), c) && i < end,
            None => last_index(v@.subrange(0, end as int), c) == -1,
        },
{
    let mut j: usize = end;
    while j > 0
        invariant
            j <= end <= v.len(),
            last_index(v@.subrange(0, end as int), c) == last_index(v@.subrange(0, j as int), c),
        decreases j,
    {
        if v[j - 1] == c {
            return Some(j - 1);
        }
        assert(v@.subrange(0, j as int).drop_last() =~= v@.subrange(0, j - 1));
        j = j - 1;
    }
    None
}

/// The index of the first `c` in `v`.
pub fn first_index_of(v: &Vec<char>, c: char) -> (r: Option<usize>)
    ensures
        match r {
            Some(i) => i as int == first_index(v@, c) && i < v.len(),
            None => first_index(v@, c) == -1,
        },
{
    let mut i: usize = 0;
    while i < v.len()
        invariant
            i <= v.len(),
            forall|k: int| 0 <= k < i ==> v@[k] != c,
        decreases v.len() - i,
    {
        if v[i] == c {
            proof {
                lemma_first_index(v@, c, i as int);
            }
            return Some(i);
        }
        i = i + 1;
    }
    proof {
        lemma_first_index_none(v@, c);
    }
    None
}

proof fn lemma_first_index(s: Seq<char>, c: char, i: int)
    requires
        0 <= i < s.len(),
        s[i] == c,
        forall|k: int| 0 <= k < i ==> s[k] != c,
    ensures
        first_index(s, c) == i,
    decreases i,
{
    if i > 0 {
        lemma_first_index(s.drop_first(), c, i - 1);
    }
}

pub(crate) proof fn lemma_first_index_none(s: Seq<char>, c: char)
    requires
        forall|k: int| 0 <= k < s.len() ==> s[k] != c,
    ensures
        first_index(s, c) == -1,
    decreases s.len(),
{
    if s.len() > 0 {
        lemma_first_index_none(s.drop_first(), c);
    }
}

/// The part of `v` before its first `c`.
pub fn before_first_chars(v: &Vec<char>, c: char) -> (r: Vec<char>)
    ensures
        r@ == before_first(v@, c),
{
    match first_index_of(v, c) {
        Some(i) => slice_chars(v, 0, i),
        None => {
            let r = slice_chars(v, 0, v.len());
            assert(r@ =~= v@);
            r
        },
    }
}

pub proof fn lemma_last_index_bounds(s: Seq<char>, c: char)
    ensures
        -1 <= last_index(s, c) < s.len(),
        last_index(s, c) >= 0 ==> s[last_index(s, c)] == c,
    decreases s.len(),
{
    if s.len() > 0 && s.last() != c {
        lemma_last_index_bounds(s.drop_last(), c);
    }
}

/// The file name of the path `s`.
pub fn file_name_chars(s: &Vec<char>) -> (r: Option<Vec<char>>)
    ensures
        match r {
            Some(n) => file_name(s@) == Some(n@),
            None => file_name(s@) is None,
        },
{
    let mut end: usize = s.len();
    assert(s@.subrange(0, end as int) =~= s@);
    loop
        invariant
            end <= s.len(),
            file_name(s@) == file_name(s@.subrange(0, end as int)),
        decreases end,
    {
        let ghost p = s@.subrange(0, end as int);
        let li = last_index_in(s, end, '/');
        let start: usize = match li {
            Some(i) => i + 1,
            None => 0,
        };
        let seg = slice_chars(s, start, end);
        assert(seg@ =~= p.subrange(last_index(p, '/') + 1, p.len() as int));
        let is_dot = seg.len() == 1 && seg[0] == '.';
        let is_dotdot = seg.len() == 2 && seg[0] == '.' && seg[1] == '.';
        assert(is_dot == (seg@ == seq!['.'])) by {
            if seg@ == seq!['.'] {
                assert(seg@[0] == '.');
            }
            if is_dot {
                assert(seg@ =~= seq!['.']);
            }
        }
        assert(is_dotdot == (seg@ == seq!['.', '.'])) by {
            if seg@ == seq!['.', '.'] {
                assert(seg@[0] == '.' && seg@[1] == '.');
            }
            if is_dotdot {
                assert(seg@ =~= seq!['.', '.']);
            }
        }
        if seg.len() == 0 || is_dot {
            match li {
                None => {
                    return None;
                },
                Some(i) => {
                    assert(p.subrange(0, i as int) =~= s@.subrange(0, i as int));
                    end = i;
                },
            }
        } else if is_dotdot {
            return None;
        } else {
            return Some(seg);
        }
    }
}

/// The extension of a file name.
pub fn name_extension_chars(n: &Vec<char>) -> (r: Option<Vec<char>>)
    ensures
        match r {
            Some(e) => name_extension(n@) == Some(e@),
            None => name_extension(n@) is None,
        },
{
    let li = last_index_in(n, n.len(), '.');
    assert(n@.subrange(0, n.len() as int) =~= n@);
    match li {
        Some(i) => {
            if i == 0 {
                None
            } else {
                Some(slice_chars(n, i + 1, n.len()))
            }
        },
        None => None,
    }
}

/// The stem of a file name.
pub fn name_stem_chars(n: &Vec<char>) -> (r: Vec<char>)
    ensures
        r@ == name_stem(n@),
{
    let li = last_index_in(n, n.len(), '.');
    assert(n@.subrange(0, n.len() as int) =~= n@);
    match li {
        Some(i) => {
            if i == 0 {
                slice_chars(n, 0, n.len())
            } else {
                slice_chars(n, 0, i)
            }
        },
        None => slice_chars(n, 0, n.len()),
    }
}

/// The lower-cased extension of the file name of `path`.
pub fn lower_extension_chars(path: &str) -> (r: Option<Vec<char>>)
    ensures
        match r {
            Some(e) => lower_extension(path@) == Some(e@),
            None => lower_extension(path@) is None,
        },
{
    let v = to_chars(path);
    match file_name_chars(&v) {
        Some(n) => match name_extension_chars(&n) {
            Some(e) => Some(lower_chars(&e)),
            None => None,
        },
        None => None,
    }
}

/// The file name of `path`, as a `String`.
pub fn file_name_of(path: &str) -> (r: Option<String>)
    ensures
        match r {
            Some(n) => file_name(path@) == Some(n@),
            None => file_name(path@) is None,
        },
{
    let v = to_chars(path);
    match file_name_chars(&v) {
        Some(n) => Some(string_from(&n)),
        None => None,
    }
}

} // verus!
