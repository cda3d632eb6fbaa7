//! Character-level helpers for deriving entry names from paths.
//!
//! Archive entry names and input paths are handled as character sequences;
//! the functions here locate separators and cut out segments, mirroring the
//! usual notion of a path's final segment and its stem.

use vstd::prelude::*;

verus! {

/// Relies on str::chars: the characters yielded are exactly the slice's view.
#[verifier::external_body]
pub fn chars_of(s: &str) -> (r: Vec<char>)
    ensures
        r@ == s@,
{
    s.chars().collect()
}

/// Relies on String's FromIterator over char: collecting characters yields
/// the string whose view is that character sequence.
#[verifier::external_body]
pub fn chars_to_string(v: &Vec<char>) -> (r: String)
    ensures
        r@ == v@,
{
    v.iter().collect()
}

/// Index of the last occurrence of `c` in `s`, if any.
pub open spec fn rfind(s: Seq<char>, c: char) -> Option<int>
    decreases s.len(),
{
    if s.len() == 0 {
        None
    } else if s.last() == c {
        Some(s.len() - 1)
    } else {
        rfind(s.drop_last(), c)
    }
}

/// A path segment that names the current directory.
pub open spec fn is_cur_seg(s: Seq<char>) -> bool {
    s.len() == 1 && s[0] == '.'
}

/// A path segment that names the parent directory.
pub open spec fn is_parent_seg(s: Seq<char>) -> bool {
    s.len() == 2 && s[0] == '.' && s[1] == '.'
}

/// The characters after the last separator of `t` (all of `t` when it holds
/// none).
pub open spec fn last_segment(t: Seq<char>) -> Seq<char> {
    match rfind(t, '/') {
        Some(i) => t.subrange(i + 1, t.len() as int),
        None => t,
    }
}

/// The file name a path points at: its final segment, where trailing
/// separators and current-directory segments are passed over, and a path
/// whose last remaining segment names the parent directory holds no file
/// name at all. Empty exactly when the path holds no name.
pub open spec fn file_name_of(p: Seq<char>) -> Seq<char>
    decreases p.len(),
{
    if p.len() == 0 {
        Seq::empty()
    } else if p.last() == '/' {
        file_name_of(p.drop_last())
    } else {
        let seg = last_segment(p);
        if is_cur_seg(seg) {
            file_name_of(p.drop_last())
        } else if is_parent_seg(seg) {
            Seq::empty()
        } else {
            seg
        }
    }
}

/// The file name a path points at, with its last extension removed: the
/// part of the name before its last dot, unless that dot starts the name.
/// `None` when the path holds no file name at all.
pub open spec fn file_stem_of(p: Seq<char>) -> Option<Seq<char>> {
    let n = file_name_of(p);
    if n.len() == 0 {
        None
    } else {
        match rfind(n, '.') {
            Some(i) => if i > 0 {
                Some(n.subrange(0, i))
            } else {
                Some(n)
            },
            None => Some(n),
        }
    }
}

/// Index of the last occurrence of `c` in `v`, if any.
pub fn rfind_char(v: &Vec<char>, c: char) -> (r: Option<usize>)
    ensures
        match r {
            Some(i) => i < v@.len() && rfind(v@, c) == Some(i as int),
            None => rfind(v@, c) is None,
        },
{
    let mut i: usize = v.len();
    assert(v@.take(i as int) =~= v@);
    while i > 0
        invariant
            i <= v@.len(),
            rfind(v@, c) == rfind(v@.take(i as int), c),
        decreases i,
    {
        i = i - 1;
        assert(v@.take(i as int + 1).drop_last() =~= v@.take(i as int));
        if v[i] == c {
            return Some(i);
        }
    }
    None
}

/// Copy out `v[a..b]`.
pub fn sub_chars(v: &Vec<char>, a: usize, b: usize) -> (r: Vec<char>)
    requires
        a <= b <= v@.len(),
    ensures
        r@ == v@.subrange(a as int, b as int),
{
    let mut r: Vec<char> = Vec::new();
    let mut i: usize = a;
    while i < b
        invariant
            a <= i <= b <= v@.len(),
            r@ == v@.subrange(a as int, i as int),
        decreases b - i,
    {
        let x = v[i];
        r.push(x);
        assert(v@.subrange(a as int, i + 1 as int) =~= v@.subrange(a as int, i as int).push(x));
        i = i + 1;
    }
    r
}

/// The final path segment of `path` with its last extension cut off, or
/// `None` when the path holds no segment.
pub fn file_stem_string(path: &String) -> (r: Option<String>)
    ensures
        match r {
            Some(s) => file_stem_of(path@) == Some(s@),
            None => file_stem_of(path@) is None,
        },
{
    let cs = chars_of(path.as_str());
    let n = file_name_chars(&cs);
    if n.len() == 0 {
        None
    } else {
        match rfind_char(&n, '.') {
            Some(i) => {
                if i > 0 {
                    let stem = sub_chars(&n, 0, i);
                    Some(chars_to_string(&stem))
                } else {
                    Some(chars_to_string(&n))
                }
            },
            None => Some(chars_to_string(&n)),
        }
    }
}

/// The file name of the path `p`, as characters; empty when the path holds
/// no file name.
pub fn file_name_chars(p: &Vec<char>) -> (r: Vec<char>)
    ensures
        r@ == file_name_of(p@),
    decreases p@.len(),
{
    let n = p.len();
    if n == 0 {
        return Vec::new();
    }
    if p[n - 1] == '/' {
        let mut t = p.clone();
        t.pop();
        return file_name_chars(&t);
    }
    let seg = match rfind_char(p, '/') {
        Some(i) => sub_chars(p, i + 1, n),
        None => p.clone(),
    };
    if seg.len() == 1 && seg[0] == '.' {
        let mut t = p.clone();
        t.pop();
        return file_name_chars(&t);
    }
    if seg.len() == 2 && seg[0] == '.' && seg[1] == '.' {
        return Vec::new();
    }
    seg
}

} // verus!
