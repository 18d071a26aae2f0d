//! Unix paths held as text: joining, and the file name, stem and extension of a path,
//! with the meaning that `std::path::Path` gives them.
use vstd::prelude::*;

use crate::text::{chars_of, push_char};

verus! {

/// `base` joined with `child` (`PathBuf::join`): an absolute `child` takes the place of
/// `base`; otherwise `child` follows `base`, with a `/` between them unless `base` is empty
/// or already ends in one.
pub open spec fn joined_path(base: Seq<char>, child: Seq<char>) -> Seq<char> {
    if child.len() > 0 && child[0] == '/' {
        child
    } else if base.len() == 0 || base.last() == '/' {
        base + child
    } else {
        base + seq!['/'] + child
    }
}

/// The characters of `p` after its last `sep` (all of `p` when it holds none).
pub open spec fn after_last(p: Seq<char>, sep: char) -> Seq<char>
    decreases p.len(),
{
    if p.len() == 0 {
        Seq::empty()
    } else if p.last() == sep {
        Seq::empty()
    } else {
        after_last(p.drop_last(), sep).push(p.last())
    }
}

/// The last component of `p` (`Path::file_name`): trailing `/` and `.` components are
/// passed over; there is none when what is left is empty or ends in `..`.
pub open spec fn file_name(p: Seq<char>) -> Option<Seq<char>>
    decreases p.len(),
{
    let seg = after_last(p, '/');
    if seg == seq!['.', '.'] {
        None
    } else if seg.len() == 0 || seg == seq!['.'] {
        if seg.len() >= p.len() {
            None
        } else {
            file_name(p.take(p.len() - seg.len() - 1))
        }
    } else {
        Some(seg)
    }
}

/// Whether a file name has a `.` that splits it into a stem and an extension: it has one
/// that is not its first character, and the name is not `..`.
pub open spec fn has_extension(name: Seq<char>) -> bool {
    &&& after_last(name, '.').len() + 1 < name.len()
    &&& name != seq!['.', '.']
}

/// The extension of a file name (`Path::extension`): what follows its last `.`.
pub open spec fn name_extension(name: Seq<char>) -> Option<Seq<char>> {
    if has_extension(name) {
        Some(after_last(name, '.'))
    } else {
        None
    }
}

/// The stem of a file name (`Path::file_stem`): what precedes its last `.`, or the whole
/// name when it has no extension.
pub open spec fn name_stem(name: Seq<char>) -> Seq<char> {
    if has_extension(name) {
        name.take(name.len() - after_last(name, '.').len() - 1)
    } else {
        name
    }
}

/// The extension of the file that a path names.
pub open spec fn path_extension(p: Seq<char>) -> Option<Seq<char>> {
    match file_name(p) {
        Some(name) => name_extension(name),
        None => None,
    }
}

proof fn lemma_after_last_len(p: Seq<char>, sep: char)
    ensures
        after_last(p, sep).len() <= p.len(),
        after_last(p, sep) == p.skip(p.len() - after_last(p, sep).len()),
        forall|j: int| 0 <= j < after_last(p, sep).len() ==> after_last(p, sep)[j] != sep,
        after_last(p, sep).len() < p.len() ==> p[p.len() - after_last(p, sep).len() - 1]
            == sep,
    decreases p.len(),
{
    if p.len() > 0 && p.last() != sep {
        lemma_after_last_len(p.drop_last(), sep);
        assert(after_last(p, sep) =~= p.skip(p.len() - after_last(p, sep).len()));
    } else if p.len() > 0 {
        assert(p.skip(p.len() as int) =~= Seq::<char>::empty());
    }
}

/// Scanning back from `end` to the last `sep` before it.
proof fn lemma_after_last_split(p: Seq<char>, sep: char, k: int)
    requires
        0 <= k <= p.len(),
        forall|j: int| k <= j < p.len() ==> p[j] != sep,
        k == 0 || p[k - 1] == sep,
    ensures
        after_last(p, sep) == p.skip(k),
    decreases p.len(),
{
    if p.len() > k {
        lemma_after_last_split(p.drop_last(), sep, k);
        assert(p.drop_last().skip(k).push(p.last()) =~= p.skip(k));
    } else {
        assert(p.skip(k) =~= Seq::<char>::empty());
        if p.len() > 0 {
            assert(p.last() == sep);
        }
    }
}

/// The position just after the last `sep` in `v[..end]` (0 when there is none).
fn segment_start(v: &Vec<char>, end: usize, sep: char) -> (k: usize)
    requires
        end <= v.len(),
    ensures
        k <= end,
        after_last(v@.take(end as int), sep) == v@.subrange(k as int, end as int),
{
    let mut k = end;
    while k > 0 && v[k - 1] != sep
        invariant
            k <= end <= v.len(),
            forall|j: int| k <= j < end ==> v@[j] != sep,
        decreases k,
    {
        k = k - 1;
    }
    proof {
        let p = v@.take(end as int);
        lemma_after_last_split(p, sep, k as int);
        assert(p.skip(k as int) =~= v@.subrange(k as int, end as int));
    }
    k
}

fn text_of(v: &Vec<char>, from: usize, to: usize) -> (s: String)
    requires
        from <= to <= v.len(),
    ensures
        s@ == v@.subrange(from as int, to as int),
{
    let mut s = String::new();
    let mut i = from;
    while i < to
        invariant
            from <= i <= to <= v.len(),
            s@ == v@.subrange(from as int, i as int),
        decreases to - i,
    {
        push_char(&mut s, v[i]);
        assert(v@.subrange(from as int, i + 1) =~= v@.subrange(from as int, i as int).push(
            v@[i as int],
        ));
        i = i + 1;
    }
    s
}

fn is_dot_dot(v: &Vec<char>, from: usize, to: usize) -> (b: bool)
    requires
        from <= to <= v.len(),
    ensures
        b == (v@.subrange(from as int, to as int) == seq!['.', '.']),
{
    let b = to - from == 2 && v[from] == '.' && v[from + 1] == '.';
    proof {
        if b {
            assert(v@.subrange(from as int, to as int) =~= seq!['.', '.']);
        } else {
            let s = v@.subrange(from as int, to as int);
            let t = seq!['.', '.'];
            assert(t.len() == 2 && t[0] == '.' && t[1] == '.');
            if to - from == 2 {
                assert(s[0] == v@[from as int] && s[1] == v@[from + 1]);
            }
            assert(s != t);
        }
    }
    b
}

fn is_dot(v: &Vec<char>, from: usize, to: usize) -> (b: bool)
    requires
        from <= to <= v.len(),
    ensures
        b == (v@.subrange(from as int, to as int) == seq!['.']),
{
    let b = to - from == 1 && v[from] == '.';
    proof {
        if b {
            assert(v@.subrange(from as int, to as int) =~= seq!['.']);
        } else {
            let s = v@.subrange(from as int, to as int);
            let t = seq!['.'];
            assert(t.len() == 1 && t[0] == '.');
            if to - from == 1 {
                assert(s[0] == v@[from as int]);
            }
            assert(s != t);
        }
    }
    b
}

/// `base` joined with `child`, as `PathBuf::join` does on Unix.
pub fn join_path(base: &str, child: &str) -> (r: String)
    ensures
        r@ == joined_path(base@, child@),
{
    let cv = chars_of(child);
    let bv = chars_of(base);
    if cv.len() > 0 && cv[0] == '/' {
        return String::from_str(child);
    }
    let mut r = String::from_str(base);
    if bv.len() > 0 && bv[bv.len() - 1] != '/' {
        push_char(&mut r, '/');
    }
    r.append(child);
    r
}

/// The last component of a path, as `Path::file_name` gives it.
pub fn path_file_name(p: &str) -> (r: Option<String>)
    ensures
        r matches Some(s) ==> file_name(p@) == Some(s@),
        r is None ==> file_name(p@) is None,
{
    let v = chars_of(p);
    let mut end = v.len();
    assert(v@.take(end as int) =~= v@);
    loop
        invariant
            end <= v.len(),
            v@ == p@,
            file_name(p@) == file_name(v@.take(end as int)),
        decreases end,
    {
        let start = segment_start(&v, end, '/');
        let ghost q = v@.take(end as int);
        proof {
            lemma_after_last_len(q, '/');
        }
        if is_dot_dot(&v, start, end) {
            return None;
        }
        if start == end || is_dot(&v, start, end) {
            if start == 0 {
                return None;
            }
            assert(q.take(q.len() - after_last(q, '/').len() - 1) =~= v@.take(start - 1));
            end = start - 1;
        } else {
            return Some(text_of(&v, start, end));
        }
    }
}

/// The stem and extension of a file name, as `Path::file_stem` and `Path::extension`
/// split it.
pub fn split_name(name: &str) -> (r: (String, Option<String>))
    ensures
        r.0@ == name_stem(name@),
        r.1 matches Some(e) ==> name_extension(name@) == Some(e@),
        r.1 is None ==> name_extension(name@) is None,
{
    let v = chars_of(name);
    let start = segment_start(&v, v.len(), '.');
    assert(v@.take(v.len() as int) =~= v@);
    assert(v@.subrange(0, v.len() as int) =~= v@);
    proof {
        lemma_after_last_len(name@, '.');
    }
    if start >= 2 && !is_dot_dot(&v, 0, v.len()) {
        (text_of(&v, 0, start - 1), Some(text_of(&v, start, v.len())))
    } else {
        (String::from_str(name), None)
    }
}

/// The extension of the file that a path names, as `Path::extension` gives it.
pub fn extension_of(p: &str) -> (r: Option<String>)
    ensures
        r matches Some(e) ==> path_extension(p@) == Some(e@),
        r is None ==> path_extension(p@) is None,
{
    match path_file_name(p) {
        Some(name) => split_name(name.as_str()).1,
        None => None,
    }
}

} // verus!
