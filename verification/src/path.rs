//! Lexical structure of slash-separated paths.
//!
//! A path is a text whose segments are separated by `/`. Empty segments and
//! segments that are a single `.` name nothing and are passed over. The final
//! name of a path is its last remaining segment, unless that segment is `..`.
//! Nothing here touches the file system.

use crate::text::chars_of;
use vstd::prelude::*;
use vstd::string::*;

verus! {

/// Where the last segment that names something ends: the length of `p` once
/// trailing separators and trailing `.` segments are cut off.
pub open spec fn name_end(p: Seq<char>) -> int
    decreases p.len(),
{
    if p.len() == 0 {
        0
    } else if p.last() == '/' {
        name_end(p.drop_last())
    } else if p.last() == '.' && (p.len() == 1 || p[p.len() - 2] == '/') {
        name_end(p.drop_last())
    } else {
        p.len() as int
    }
}

/// Where the segment that ends at `end` starts: just behind the nearest
/// separator to the left of `end`, or at 0.
pub open spec fn segment_start(p: Seq<char>, end: int) -> int
    decreases end,
{
    if end <= 0 {
        0
    } else if p[end - 1] == '/' {
        end
    } else {
        segment_start(p, end - 1)
    }
}

/// Position of the last `.` in `name`, or -1 where it has none.
pub open spec fn last_dot(name: Seq<char>) -> int
    decreases name.len(),
{
    if name.len() == 0 {
        -1
    } else if name.last() == '.' {
        name.len() - 1
    } else {
        last_dot(name.drop_last())
    }
}

/// The last segment of `p` that names something, with trailing separators and
/// `.` segments ignored. It may be `..`.
pub open spec fn last_segment(p: Seq<char>) -> Seq<char> {
    p.subrange(segment_start(p, name_end(p)), name_end(p))
}

/// The final name of `p`: none where `p` names nothing or ends in `..`.
pub open spec fn path_file_name(p: Seq<char>) -> Option<Seq<char>> {
    if name_end(p) == 0 || last_segment(p) == seq!['.', '.'] {
        None
    } else {
        Some(last_segment(p))
    }
}

/// The extension of the final name: what follows its last `.`, unless the
/// name has no `.` or its only `.` is its first character.
pub open spec fn path_extension(p: Seq<char>) -> Option<Seq<char>> {
    match path_file_name(p) {
        None => None,
        Some(name) => if last_dot(name) <= 0 {
            None
        } else {
            Some(name.skip(last_dot(name) + 1))
        },
    }
}

/// Where the stem of the final name ends within `p`: at the last `.` of the
/// name where that starts an extension, else at the end of the name.
pub open spec fn stem_end(p: Seq<char>) -> int {
    if last_dot(last_segment(p)) <= 0 {
        name_end(p)
    } else {
        segment_start(p, name_end(p)) + last_dot(last_segment(p))
    }
}

/// `p` with the extension of its final name replaced by `ext`; what follows
/// the final name is dropped. An empty `ext` removes the extension. A path
/// without a final name stays as it is.
pub open spec fn path_with_extension(p: Seq<char>, ext: Seq<char>) -> Seq<char> {
    if path_file_name(p) is None {
        p
    } else if ext.len() == 0 {
        p.take(stem_end(p))
    } else {
        p.take(stem_end(p)) + seq!['.'] + ext
    }
}

/// Whether `p` starts at the root.
pub open spec fn has_root(p: Seq<char>) -> bool {
    p.len() > 0 && p[0] == '/'
}

/// Whether the first segment of `p` is a single `.`.
pub open spec fn starts_with_cur_dir(p: Seq<char>) -> bool {
    p.len() > 0 && p[0] == '.' && (p.len() == 1 || p[1] == '/')
}

/// Length of the leading part of `p` that a parent always keeps: the root
/// separator or a leading `.`.
pub open spec fn anchor_len(p: Seq<char>) -> int {
    if has_root(p) || starts_with_cur_dir(p) {
        1
    } else {
        0
    }
}

/// Where the parent of `p` ends, for a `p` with a last segment.
pub open spec fn parent_end(p: Seq<char>) -> int {
    let k = name_end(p.take(segment_start(p, name_end(p))));
    if k < anchor_len(p) {
        anchor_len(p)
    } else {
        k
    }
}

/// The path without its last segment. A path that is only a leading `.` has
/// the empty parent; the empty path and a path that is only the root have
/// none.
pub open spec fn path_parent(p: Seq<char>) -> Option<Seq<char>> {
    if name_end(p) == 0 {
        if starts_with_cur_dir(p) {
            Some(Seq::empty())
        } else {
            None
        }
    } else {
        Some(p.take(parent_end(p)))
    }
}

/// The last segment ends inside the path, and not on a separator.
pub proof fn lemma_name_end_bounds(p: Seq<char>)
    ensures
        0 <= name_end(p) <= p.len(),
        name_end(p) > 0 ==> p[name_end(p) - 1] != '/',
    decreases p.len(),
{
    if p.len() > 0 {
        lemma_name_end_bounds(p.drop_last());
    }
}

/// A segment starts at 0 or just behind a separator, and holds none.
pub proof fn lemma_segment_start_bounds(p: Seq<char>, end: int)
    requires
        0 <= end <= p.len(),
    ensures
        0 <= segment_start(p, end) <= end,
        segment_start(p, end) > 0 ==> p[segment_start(p, end) - 1] == '/',
        forall|i: int| segment_start(p, end) <= i < end ==> #[trigger] p[i] != '/',
    decreases end,
{
    if end > 0 && p[end - 1] != '/' {
        lemma_segment_start_bounds(p, end - 1);
    }
}

/// `last_dot` finds a `.`, and no `.` follows it.
pub proof fn lemma_last_dot_bounds(name: Seq<char>)
    ensures
        -1 <= last_dot(name) < name.len(),
        last_dot(name) >= 0 ==> name[last_dot(name)] == '.',
        forall|i: int| last_dot(name) < i < name.len() ==> #[trigger] name[i] != '.',
    decreases name.len(),
{
    if name.len() > 0 && name.last() != '.' {
        let t = name.drop_last();
        lemma_last_dot_bounds(t);
        assert forall|i: int| last_dot(name) < i < name.len() implies #[trigger] name[i]
            != '.' by {
            if i < t.len() {
                assert(name[i] == t[i]);
            }
        }
    }
}

/// The last segment is never empty, holds no separator and is not a single
/// `.`; an extension holds neither a separator nor a `.`.
pub proof fn lemma_last_segment_shape(p: Seq<char>)
    requires
        name_end(p) > 0,
    ensures
        last_segment(p).len() > 0,
        last_segment(p) != seq!['.'],
        forall|i: int| 0 <= i < last_segment(p).len() ==> #[trigger] last_segment(p)[i] != '/',
        path_extension(p) matches Some(e) ==> forall|i: int|
            0 <= i < e.len() ==> #[trigger] e[i] != '/' && e[i] != '.',
{
    lemma_name_end_bounds(p);
    let e = name_end(p);
    lemma_segment_start_bounds(p, e);
    let s = segment_start(p, e);
    lemma_name_end_is_fixed(p);
    assert(s < e);
    let name = last_segment(p);
    if name == seq!['.'] {
        assert(name.len() == 1);
        assert(name[0] == '.');
        assert(p[e - 1] == '.');
        assert(s == e - 1);
        assert(false);
    }
    lemma_last_dot_bounds(name);
    if let Some(x) = path_extension(p) {
        let d = last_dot(name);
        assert forall|i: int| 0 <= i < x.len() implies #[trigger] x[i] != '/' && x[i] != '.' by {
            assert(x[i] == name[d + 1 + i]);
        }
    }
}

/// The last segment ends where cutting stops: its last character is neither
/// a separator nor a `.` that is a segment of its own.
pub proof fn lemma_name_end_is_fixed(p: Seq<char>)
    requires
        name_end(p) > 0,
    ensures
        p[name_end(p) - 1] != '/',
        !(p[name_end(p) - 1] == '.' && (name_end(p) == 1 || p[name_end(p) - 2] == '/')),
        name_end(p.take(name_end(p))) == name_end(p),
    decreases p.len(),
{
    if p.len() > 0 {
        let junk = p.last() == '/' || (p.last() == '.' && (p.len() == 1 || p[p.len() - 2] == '/'));
        if junk {
            let t = p.drop_last();
            lemma_name_end_is_fixed(t);
            lemma_name_end_bounds(t);
            assert(t.take(name_end(t)) =~= p.take(name_end(p)));
        } else {
            assert(p.take(p.len() as int) =~= p);
        }
    }
}

/// A run of characters without a separator that starts at 0 or just behind
/// a separator is one segment.
pub proof fn lemma_segment_start_of_run(p: Seq<char>, from: int, end: int)
    requires
        0 <= from <= end <= p.len(),
        from == 0 || p[from - 1] == '/',
        forall|i: int| from <= i < end ==> #[trigger] p[i] != '/',
    ensures
        segment_start(p, end) == from,
    decreases end - from,
{
    if from < end {
        lemma_segment_start_of_run(p, from, end - 1);
    }
}

/// In `stem.ext`, where `ext` holds no `.`, the last `.` is the one behind
/// the stem.
pub proof fn lemma_last_dot_behind_stem(stem: Seq<char>, ext: Seq<char>)
    requires
        forall|i: int| 0 <= i < ext.len() ==> #[trigger] ext[i] != '.',
    ensures
        last_dot(stem + seq!['.'] + ext) == stem.len(),
    decreases ext.len(),
{
    let name = stem + seq!['.'] + ext;
    if ext.len() > 0 {
        assert(name.last() == ext.last());
        assert(name.drop_last() =~= stem + seq!['.'] + ext.drop_last());
        lemma_last_dot_behind_stem(stem, ext.drop_last());
    } else {
        assert(name.last() == '.');
    }
}

/// Whether `name` can be the final name of a path: it is not empty, holds no
/// separator and is neither `.` nor `..`.
pub open spec fn is_plain_name(name: Seq<char>) -> bool {
    &&& name.len() > 0
    &&& forall|i: int| 0 <= i < name.len() ==> #[trigger] name[i] != '/'
    &&& name != seq!['.']
    &&& name != seq!['.', '.']
}

/// A plain name behind a prefix that is empty or ends in a separator is the
/// final name of the path.
pub proof fn lemma_file_name_of_joined(prefix: Seq<char>, name: Seq<char>)
    requires
        prefix.len() == 0 || prefix.last() == '/',
        is_plain_name(name),
    ensures
        name_end(prefix + name) == (prefix + name).len(),
        segment_start(prefix + name, (prefix + name).len() as int) == prefix.len(),
        last_segment(prefix + name) == name,
        path_file_name(prefix + name) == Some(name),
{
    let p = prefix + name;
    let n = p.len() as int;
    assert(p.last() == name.last());
    if p.last() == '.' && (n == 1 || p[n - 2] == '/') {
        if name.len() > 1 {
            assert(p[n - 2] == name[name.len() - 2]);
        }
        assert(name =~= seq!['.']);
    }
    assert(name_end(p) == n);
    assert forall|i: int| prefix.len() <= i < n implies #[trigger] p[i] != '/' by {
        assert(p[i] == name[i - prefix.len()]);
    }
    lemma_segment_start_of_run(p, prefix.len() as int, n);
    assert(p.subrange(prefix.len() as int, n) =~= name);
}

/// The extension of `prefix` + `stem.ext` is `ext`, and replacing it puts the
/// new extension behind the same prefix and stem: `dir/report.saty` with the
/// extension `pdf` is `dir/report.pdf`.
pub proof fn lemma_extension_of_joined(
    prefix: Seq<char>,
    stem: Seq<char>,
    ext: Seq<char>,
    replacement: Seq<char>,
)
    requires
        prefix.len() == 0 || prefix.last() == '/',
        stem.len() > 0,
        is_plain_name(stem + seq!['.'] + ext),
        forall|i: int| 0 <= i < ext.len() ==> #[trigger] ext[i] != '.',
        replacement.len() > 0,
    ensures
        path_extension(prefix + (stem + seq!['.'] + ext)) == Some(ext),
        path_with_extension(prefix + (stem + seq!['.'] + ext), replacement) == prefix + stem
            + seq!['.'] + replacement,
        path_with_extension(prefix + (stem + seq!['.'] + ext), Seq::empty()) == prefix + stem,
{
    let name = stem + seq!['.'] + ext;
    let p = prefix + name;
    lemma_file_name_of_joined(prefix, name);
    lemma_last_dot_behind_stem(stem, ext);
    assert(name.skip(stem.len() as int + 1) =~= ext);
    assert(stem_end(p) == prefix.len() + stem.len());
    assert(p.take(stem_end(p)) =~= prefix + stem);
}

/// The parent of a name without a separator is empty.
pub proof fn lemma_parent_of_bare_name(name: Seq<char>)
    requires
        name.len() > 0,
        forall|i: int| 0 <= i < name.len() ==> #[trigger] name[i] != '/',
    ensures
        path_parent(name) == Some(Seq::<char>::empty()),
{
    if name.len() == 1 && name[0] == '.' {
        assert(name.drop_last() =~= Seq::<char>::empty());
        assert(name_end(name) == name_end(name.drop_last()));
    } else {
        let n = name.len() as int;
        if name.last() == '.' {
            assert(name[n - 2] != '/');
        }
        assert(name_end(name) == n);
        lemma_segment_start_of_run(name, 0, n);
        assert(name.take(0) =~= Seq::<char>::empty());
        assert(name[0] != '/');
        if name[0] == '.' {
            assert(name[1] != '/');
        }
    }
}

/// The parent of `dir/name` is `dir`, for a plain name and a directory that
/// does not end in a separator or a `.` segment.
pub proof fn lemma_parent_of_joined(dir: Seq<char>, name: Seq<char>)
    requires
        dir.len() > 0,
        name_end(dir) == dir.len(),
        is_plain_name(name) || name == seq!['.', '.'],
    ensures
        path_parent(dir + seq!['/'] + name) == Some(dir),
{
    let prefix = dir + seq!['/'];
    let p = prefix + name;
    let n = p.len() as int;
    assert(prefix.last() == '/');
    if name == seq!['.', '.'] {
        assert(name.len() == 2 && name[0] == '.' && name[1] == '.');
        assert(p[n - 1] == name[1] && p[n - 2] == name[0]);
        assert(name_end(p) == n);
        assert forall|i: int| prefix.len() <= i < n implies #[trigger] p[i] != '/' by {
            assert(p[i] == name[i - prefix.len()]);
        }
        lemma_segment_start_of_run(p, prefix.len() as int, n);
    } else {
        lemma_file_name_of_joined(prefix, name);
    }
    assert(p.take(prefix.len() as int) =~= prefix);
    assert(prefix.drop_last() =~= dir);
    assert(name_end(prefix) == name_end(dir));
    assert(p.take(dir.len() as int) =~= dir);
    assert(p[0] == dir[0]);
    assert(anchor_len(p) <= 1);
}

fn name_end_of(v: &Vec<char>, limit: usize) -> (e: usize)
    requires
        limit <= v.len(),
    ensures
        e == name_end(v@.take(limit as int)),
        e <= limit,
{
    let mut e: usize = limit;
    while e > 0
        invariant
            e <= limit <= v.len(),
            name_end(v@.take(limit as int)) == name_end(v@.take(e as int)),
        decreases e,
    {
        let c = v[e - 1];
        let junk = c == '/' || (c == '.' && (e == 1 || v[e - 2] == '/'));
        if !junk {
            return e;
        }
        proof {
            assert(v@.take(e as int).drop_last() =~= v@.take(e - 1));
        }
        e = e - 1;
    }
    e
}

fn segment_start_of(v: &Vec<char>, end: usize) -> (s: usize)
    requires
        end <= v.len(),
    ensures
        s == segment_start(v@, end as int),
        s <= end,
{
    let mut s: usize = end;
    while s > 0 && v[s - 1] != '/'
        invariant
            s <= end <= v.len(),
            segment_start(v@, end as int) == segment_start(v@, s as int),
        decreases s,
    {
        s = s - 1;
    }
    s
}

/// Position of the last `.` in `v[from..to]`, counted from `from`.
fn last_dot_of(v: &Vec<char>, from: usize, to: usize) -> (d: Option<usize>)
    requires
        from <= to <= v.len(),
    ensures
        match d {
            Some(i) => i == last_dot(v@.subrange(from as int, to as int)) && i < to - from,
            None => last_dot(v@.subrange(from as int, to as int)) == -1,
        },
{
    let ghost name = v@.subrange(from as int, to as int);
    let mut i: usize = to;
    assert(name.take((to - from) as int) =~= name);
    while i > from
        invariant
            from <= i <= to <= v.len(),
            name == v@.subrange(from as int, to as int),
            last_dot(name) == last_dot(name.take((i - from) as int)),
        decreases i,
    {
        proof {
            assert(name.take((i - from) as int).drop_last() =~= name.take((i - 1 - from) as int));
            assert(name.take((i - from) as int).last() == v@[i - 1]);
        }
        if v[i - 1] == '.' {
            return Some(i - 1 - from);
        }
        i = i - 1;
    }
    None
}

/// Whether `v[from..to]` is the segment `..`.
fn is_dot_dot(v: &Vec<char>, from: usize, to: usize) -> (r: bool)
    requires
        from <= to <= v.len(),
    ensures
        r == (v@.subrange(from as int, to as int) == seq!['.', '.']),
{
    let ghost name = v@.subrange(from as int, to as int);
    if to - from == 2 {
        let r = v[from] == '.' && v[from + 1] == '.';
        proof {
            assert(name[0] == v@[from as int]);
            assert(name[1] == v@[from + 1]);
            if r {
                assert(name =~= seq!['.', '.']);
            } else {
                assert(seq!['.', '.'][0] == '.' && seq!['.', '.'][1] == '.');
            }
        }
        r
    } else {
        proof {
            assert(seq!['.', '.'].len() == 2);
        }
        false
    }
}

/// The bounds of the final name of `v`, where it has one.
fn file_name_bounds(v: &Vec<char>) -> (r: Option<(usize, usize)>)
    ensures
        match r {
            Some((s, e)) => s == segment_start(v@, name_end(v@)) && e == name_end(v@) && s <= e
                <= v.len() && path_file_name(v@) == Some(last_segment(v@)),
            None => path_file_name(v@) is None,
        },
{
    proof {
        assert(v@.take(v.len() as int) =~= v@);
    }
    let e = name_end_of(v, v.len());
    if e == 0 {
        return None;
    }
    let s = segment_start_of(v, e);
    if is_dot_dot(v, s, e) {
        None
    } else {
        Some((s, e))
    }
}

/// Where the stem of the final name `v[s..e]` ends.
fn stem_end_of(v: &Vec<char>, s: usize, e: usize) -> (k: usize)
    requires
        s == segment_start(v@, name_end(v@)),
        e == name_end(v@),
        s <= e <= v.len(),
    ensures
        k == stem_end(v@),
        s <= k <= e,
{
    match last_dot_of(v, s, e) {
        Some(d) => if d == 0 {
            e
        } else {
            s + d
        },
        None => e,
    }
}

/// The final name of `path`, where it has one.
pub fn file_name(path: &str) -> (r: Option<String>)
    ensures
        r.deep_view() == path_file_name(path@),
{
    let v = chars_of(path);
    match file_name_bounds(&v) {
        Some((s, e)) => Some(path.substring_char(s, e).to_owned()),
        None => None,
    }
}

/// The extension of the final name of `path`, without the `.` before it.
pub fn extension(path: &str) -> (r: Option<String>)
    ensures
        r.deep_view() == path_extension(path@),
{
    let v = chars_of(path);
    match file_name_bounds(&v) {
        Some((s, e)) => match last_dot_of(&v, s, e) {
            Some(d) => if d == 0 {
                None
            } else {
                proof {
                    assert(last_segment(path@).skip(d + 1) =~= path@.subrange(s + d + 1, e as int));
                }
                Some(path.substring_char(s + d + 1, e).to_owned())
            },
            None => None,
        },
        None => None,
    }
}

/// `path` with the extension of its final name replaced by `ext`.
pub fn with_extension(path: &str, ext: &str) -> (r: String)
    ensures
        r@ == path_with_extension(path@, ext@),
{
    let v = chars_of(path);
    match file_name_bounds(&v) {
        Some((s, e)) => {
            let k = stem_end_of(&v, s, e);
            proof {
                assert(path@.subrange(0, k as int) =~= path@.take(k as int));
            }
            let mut r = path.substring_char(0, k).to_owned();
            if !ext.is_empty() {
                proof {
                    reveal_strlit(".");
                    assert("."@ =~= seq!['.']);
                }
                r.append(".");
                r.append(ext);
            }
            r
        },
        None => path.to_owned(),
    }
}

/// The parent of `path`, where it has one.
pub fn parent(path: &str) -> (r: Option<String>)
    ensures
        r.deep_view() == path_parent(path@),
{
    let v = chars_of(path);
    let n: usize = v.len();
    proof {
        assert(v@.take(n as int) =~= v@);
    }
    let e = name_end_of(&v, n);
    let cur_dir = n > 0 && v[0] == '.' && (n == 1 || v[1] == '/');
    if e == 0 {
        if cur_dir {
            proof {
                reveal_strlit("");
                assert(""@ =~= Seq::<char>::empty());
            }
            Some("".to_owned())
        } else {
            None
        }
    } else {
        let s = segment_start_of(&v, e);
        let k = name_end_of(&v, s);
        let anchor: usize = if v[0] == '/' || cur_dir {
            1
        } else {
            0
        };
        let end: usize = if k < anchor {
            anchor
        } else {
            k
        };
        proof {
            assert(path@.subrange(0, end as int) =~= path@.take(end as int));
        }
        Some(path.substring_char(0, end).to_owned())
    }
}

} // verus!
