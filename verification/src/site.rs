//! What a build makes of the files of a site: which markdown files are pages and posts,
//! the navigation entries of the pages, the index entries of the posts, and their order.
use vstd::prelude::*;

use crate::order::{
    date_at_most, date_le, lemma_date_le_reflexive, lemma_date_le_total, lemma_date_le_transitive,
    lemma_text_le_reflexive, lemma_text_le_total,
    lemma_text_le_transitive, text_at_most, text_le,
};
use crate::paths::{name_extension, name_stem, split_name};
use crate::text::{same_text, views};
use crate::types::{opt_view, Frontmatter, PostMeta};

verus! {

/// `p` maps the positions `0..n` one to one onto themselves.
pub open spec fn is_permutation(p: Seq<int>, n: nat) -> bool {
    &&& p.len() == n
    &&& forall|k: int| 0 <= k < n ==> 0 <= #[trigger] p[k] < n
    &&& forall|k: int, l: int| 0 <= k < l < n ==> p[k] != p[l]
}

/// Whether a file name is that of a markdown file (its extension is `md`).
pub open spec fn is_markdown(name: Seq<char>) -> bool {
    name_extension(name) == Some("md"@)
}

/// Whether a file name is that of a page other than the home page: a markdown file whose
/// stem is not `index`.
pub open spec fn is_page_name(name: Seq<char>) -> bool {
    is_markdown(name) && name_stem(name) != "index"@
}

/// The names that `keep` holds of, in their order.
pub open spec fn kept(names: Seq<Seq<char>>, keep: spec_fn(Seq<char>) -> bool) -> Seq<Seq<char>>
    decreases names.len(),
{
    if names.len() == 0 {
        Seq::empty()
    } else if keep(names.last()) {
        kept(names.drop_last(), keep).push(names.last())
    } else {
        kept(names.drop_last(), keep)
    }
}

/// `out` is `names` in ascending order, `p` saying where each came from.
pub open spec fn sorted_names_by(names: Seq<Seq<char>>, out: Seq<Seq<char>>, p: Seq<int>) -> bool {
    &&& out.len() == names.len()
    &&& is_permutation(p, names.len())
    &&& forall|k: int| 0 <= k < out.len() ==> out[k] == names[#[trigger] p[k]]
    &&& forall|k: int, l: int| 0 <= k < l < out.len() ==> text_le(out[k], out[l])
}

/// `out` holds the names of `names`, each as often, in ascending order.
pub open spec fn is_sorted_names(names: Seq<Seq<char>>, out: Seq<Seq<char>>) -> bool {
    exists|p: Seq<int>| sorted_names_by(names, out, p)
}

/// The date by which posts are ordered.
pub open spec fn post_key(p: PostMeta) -> Option<Seq<char>> {
    opt_view(p.date)
}

/// `out` is `posts` ordered newest first, `p` saying where each came from: dated posts
/// before undated ones, later dates first, and posts with the same date (or none) in the
/// order they came in.
pub open spec fn newest_first_by(posts: Seq<PostMeta>, out: Seq<PostMeta>, p: Seq<int>) -> bool {
    &&& out.len() == posts.len()
    &&& is_permutation(p, posts.len())
    &&& forall|k: int| 0 <= k < out.len() ==> out[k] == posts[#[trigger] p[k]]
    &&& forall|k: int, l: int|
        0 <= k < l < out.len() ==> date_le(post_key(#[trigger] out[l]), post_key(#[trigger] out[k]))
    &&& forall|k: int, l: int|
        0 <= k < l < out.len() && post_key(#[trigger] out[k]) == post_key(#[trigger] out[l])
            ==> p[k] < p[l]
}

/// `out` is `posts` sorted newest first by a stable sort.
pub open spec fn is_newest_first(posts: Seq<PostMeta>, out: Seq<PostMeta>) -> bool {
    exists|p: Seq<int>| newest_first_by(posts, out, p)
}

/// The title and address of a page in the navigation bar.
pub open spec fn nav_entry_of(name: Seq<char>, front: Option<Frontmatter>) -> (Seq<char>, Seq<char>) {
    (
        match front {
            Some(f) => f.title@,
            None => name_stem(name),
        },
        "/"@ + name_stem(name) + "/"@,
    )
}

proof fn lemma_insert_name(old: Seq<Seq<char>>, pre: Seq<Seq<char>>, p: Seq<int>, x: Seq<char>, pos: int)
    requires
        sorted_names_by(pre, old, p),
        0 <= pos <= old.len(),
        forall|k: int| 0 <= k < pos ==> text_le(old[k], x),
        pos < old.len() ==> !text_le(old[pos], x),
    ensures
        sorted_names_by(pre.push(x), old.insert(pos, x), p.insert(pos, old.len() as int)),
{
    let n = old.len() as int;
    let o = old.insert(pos, x);
    let q = p.insert(pos, n);
    let pre2 = pre.push(x);
    assert forall|k: int| 0 <= k < n + 1 implies 0 <= #[trigger] q[k] < n + 1 by {
        if k > pos {
            assert(q[k] == p[k - 1]);
        }
    }
    assert forall|k: int, l: int| 0 <= k < l < n + 1 implies q[k] != q[l] by {
        if k != pos && l != pos {
            let k2 = if k < pos { k } else { k - 1 };
            let l2 = if l < pos { l } else { l - 1 };
            assert(q[k] == p[k2] && q[l] == p[l2]);
        } else if k == pos {
            assert(q[l] == p[l - 1]);
        } else {
            assert(q[k] == p[k]);
        }
    }
    assert forall|k: int| 0 <= k < n + 1 implies o[k] == pre2[#[trigger] q[k]] by {
        if k < pos {
            assert(o[k] == old[k] && q[k] == p[k]);
        } else if k > pos {
            assert(o[k] == old[k - 1] && q[k] == p[k - 1]);
        }
    }
    if pos < n {
        lemma_text_le_total(old[pos], x);
    }
    assert forall|k: int, l: int| 0 <= k < l < n + 1 implies text_le(o[k], o[l]) by {
        if l < pos {
            assert(o[k] == old[k] && o[l] == old[l]);
        } else if l == pos {
            assert(o[k] == old[k]);
        } else if k == pos {
            assert(o[l] == old[l - 1]);
            if l - 1 > pos {
                assert(text_le(old[pos], old[l - 1]));
            } else {
                lemma_text_le_reflexive(old[pos]);
            }
            lemma_text_le_transitive(x, old[pos], old[l - 1]);
        } else if k < pos {
            assert(o[k] == old[k] && o[l] == old[l - 1]);
        } else {
            assert(o[k] == old[k - 1] && o[l] == old[l - 1]);
        }
    }
}

proof fn lemma_insert_post(old: Seq<PostMeta>, pre: Seq<PostMeta>, p: Seq<int>, x: PostMeta, pos: int)
    requires
        newest_first_by(pre, old, p),
        0 <= pos <= old.len(),
        forall|k: int| 0 <= k < pos ==> date_le(post_key(x), post_key(#[trigger] old[k])),
        pos < old.len() ==> !date_le(post_key(x), post_key(old[pos])),
    ensures
        newest_first_by(pre.push(x), old.insert(pos, x), p.insert(pos, old.len() as int)),
{
    let n = old.len() as int;
    let o = old.insert(pos, x);
    let q = p.insert(pos, n);
    let pre2 = pre.push(x);
    assert forall|k: int| 0 <= k < n + 1 implies 0 <= #[trigger] q[k] < n + 1 by {
        if k > pos {
            assert(q[k] == p[k - 1]);
        }
    }
    assert forall|k: int, l: int| 0 <= k < l < n + 1 implies q[k] != q[l] by {
        if k != pos && l != pos {
            let k2 = if k < pos { k } else { k - 1 };
            let l2 = if l < pos { l } else { l - 1 };
            assert(q[k] == p[k2] && q[l] == p[l2]);
        } else if k == pos {
            assert(q[l] == p[l - 1]);
        } else {
            assert(q[k] == p[k]);
        }
    }
    assert forall|k: int| 0 <= k < n + 1 implies o[k] == pre2[#[trigger] q[k]] by {
        if k < pos {
            assert(o[k] == old[k] && q[k] == p[k]);
        } else if k > pos {
            assert(o[k] == old[k - 1] && q[k] == p[k - 1]);
        }
    }
    if pos < n {
        lemma_date_le_total(post_key(x), post_key(old[pos]));
    }
    assert forall|k: int, l: int| 0 <= k < l < n + 1 implies date_le(
        post_key(#[trigger] o[l]),
        post_key(#[trigger] o[k]),
    ) by {
        if l < pos {
            assert(o[k] == old[k] && o[l] == old[l]);
        } else if l == pos {
            assert(o[k] == old[k]);
        } else if k == pos {
            assert(o[l] == old[l - 1]);
            if l - 1 > pos {
                assert(date_le(post_key(old[l - 1]), post_key(old[pos])));
            } else {
                lemma_date_le_reflexive(post_key(old[pos]));
            }
            lemma_date_le_transitive(post_key(old[l - 1]), post_key(old[pos]), post_key(x));
        } else if k < pos {
            assert(o[k] == old[k] && o[l] == old[l - 1]);
        } else {
            assert(o[k] == old[k - 1] && o[l] == old[l - 1]);
        }
    }
    assert forall|k: int, l: int|
        0 <= k < l < n + 1 && post_key(#[trigger] o[k]) == post_key(#[trigger] o[l]) implies q[k]
        < q[l] by {
        if l < pos {
            assert(o[k] == old[k] && o[l] == old[l] && q[k] == p[k] && q[l] == p[l]);
        } else if l == pos {
            assert(q[k] == p[k]);
        } else if k == pos {
            assert(o[l] == old[l - 1]);
            if l - 1 > pos {
                assert(date_le(post_key(old[l - 1]), post_key(old[pos])));
            }
        } else if k < pos {
            assert(o[k] == old[k] && o[l] == old[l - 1] && q[k] == p[k] && q[l] == p[l - 1]);
        } else {
            assert(o[k] == old[k - 1] && o[l] == old[l - 1] && q[k] == p[k - 1] && q[l] == p[l
                - 1]);
        }
    }
}

/// The names in ascending order.
fn sort_names(names: Vec<String>) -> (r: Vec<String>)
    ensures
        is_sorted_names(views(names@), views(r@)),
{
    let ghost orig = views(names@);
    let mut input = names;
    let mut out: Vec<String> = Vec::new();
    let ghost mut p: Seq<int> = Seq::empty();
    let ghost mut i: int = 0;
    assert(orig.skip(0) =~= orig);
    while input.len() > 0
        invariant
            0 <= i <= orig.len(),
            views(input@) == orig.skip(i),
            sorted_names_by(orig.take(i), views(out@), p),
        decreases input.len(),
    {
        let ghost before = input@;
        let x = input.remove(0);
        assert(input@ =~= before.skip(1));
        assert(views(input@) =~= views(before).skip(1));
        assert(orig.skip(i).skip(1) =~= orig.skip(i + 1));
        assert(x@ == orig[i]) by {
            assert(views(before)[0] == x@);
            assert(orig.skip(i)[0] == orig[i]);
        }
        let mut pos: usize = 0;
        while pos < out.len() && text_at_most(out[pos].as_str(), x.as_str())
            invariant
                pos <= out.len(),
                forall|k: int| 0 <= k < pos ==> text_le(views(out@)[k], x@),
            decreases out.len() - pos,
        {
            pos = pos + 1;
        }
        proof {
            lemma_insert_name(views(out@), orig.take(i), p, x@, pos as int);
            assert(orig.take(i).push(x@) =~= orig.take(i + 1));
        }
        let ghost old_out = out@;
        out.insert(pos, x);
        proof {
            assert(views(out@) =~= views(old_out).insert(pos as int, x@));
            p = p.insert(pos as int, views(old_out).len() as int);
            i = i + 1;
        }
    }
    assert(orig.take(i) =~= orig);
    out
}


/// The markdown files among `names`, in their order.
pub open spec fn markdown_names(names: Seq<Seq<char>>) -> Seq<Seq<char>> {
    kept(names, |n: Seq<char>| is_markdown(n))
}

/// The pages other than the home page among `names`, in their order.
pub open spec fn page_names(names: Seq<Seq<char>>) -> Seq<Seq<char>> {
    kept(names, |n: Seq<char>| is_page_name(n))
}

/// Whether the file name is that of a markdown file.
fn markdown_file(name: &str) -> (r: bool)
    ensures
        r == is_markdown(name@),
{
    let (_, ext) = split_name(name);
    match ext {
        Some(e) => same_text(e.as_str(), "md"),
        None => false,
    }
}

/// Whether the file name is that of a page other than the home page.
fn page_file(name: &str) -> (r: bool)
    ensures
        r == is_page_name(name@),
{
    let (stem, ext) = split_name(name);
    match ext {
        Some(e) => same_text(e.as_str(), "md") && !same_text(stem.as_str(), "index"),
        None => false,
    }
}

/// The markdown files among the names of a directory's entries, in their order: the posts
/// of the writings directory.
pub fn post_sources(names: &Vec<String>) -> (r: Vec<String>)
    ensures
        views(r@) == markdown_names(views(names@)),
{
    let mut out: Vec<String> = Vec::new();
    let mut i: usize = 0;
    while i < names.len()
        invariant
            i <= names.len(),
            views(out@) == markdown_names(views(names@).take(i as int)),
        decreases names.len() - i,
    {
        let ghost prev = views(out@);
        assert(views(names@).take(i + 1).drop_last() =~= views(names@).take(i as int));
        if markdown_file(names[i].as_str()) {
            out.push(names[i].clone());
            assert(views(out@) =~= prev.push(names@[i as int]@));
        }
        i = i + 1;
    }
    assert(views(names@).take(i as int) =~= views(names@));
    out
}

/// The pages other than the home page among the names of a directory's entries, in
/// ascending order: the pages of the navigation bar.
pub fn page_sources(names: &Vec<String>) -> (r: Vec<String>)
    ensures
        is_sorted_names(page_names(views(names@)), views(r@)),
{
    let mut out: Vec<String> = Vec::new();
    let mut i: usize = 0;
    while i < names.len()
        invariant
            i <= names.len(),
            views(out@) == page_names(views(names@).take(i as int)),
        decreases names.len() - i,
    {
        let ghost prev = views(out@);
        assert(views(names@).take(i + 1).drop_last() =~= views(names@).take(i as int));
        if page_file(names[i].as_str()) {
            out.push(names[i].clone());
            assert(views(out@) =~= prev.push(names@[i as int]@));
        }
        i = i + 1;
    }
    assert(views(names@).take(i as int) =~= views(names@));
    sort_names(out)
}

/// The posts ordered newest first, those of one date (or of none) in the order given, as a
/// stable sort by descending date orders them.
pub fn sort_posts(posts: Vec<PostMeta>) -> (r: Vec<PostMeta>)
    ensures
        is_newest_first(posts@, r@),
{
    let ghost orig = posts@;
    let mut input = posts;
    let mut out: Vec<PostMeta> = Vec::new();
    let ghost mut p: Seq<int> = Seq::empty();
    let ghost mut i: int = 0;
    assert(orig.skip(0) =~= orig);
    while input.len() > 0
        invariant
            0 <= i <= orig.len(),
            input@ == orig.skip(i),
            newest_first_by(orig.take(i), out@, p),
        decreases input.len(),
    {
        let ghost before = input@;
        let x = input.remove(0);
        assert(input@ =~= orig.skip(i + 1));
        assert(x == orig[i]) by {
            assert(orig.skip(i)[0] == orig[i]);
        }
        let mut pos: usize = 0;
        while pos < out.len() && date_at_most(&x.date, &out[pos].date)
            invariant
                pos <= out.len(),
                forall|k: int| 0 <= k < pos ==> date_le(post_key(x), post_key(#[trigger] out@[k])),
            decreases out.len() - pos,
        {
            pos = pos + 1;
        }
        proof {
            lemma_insert_post(out@, orig.take(i), p, x, pos as int);
            assert(orig.take(i).push(x) =~= orig.take(i + 1));
        }
        let ghost old_out = out@;
        out.insert(pos, x);
        proof {
            p = p.insert(pos as int, old_out.len() as int);
            i = i + 1;
        }
    }
    assert(orig.take(i) =~= orig);
    out
}

/// The entry of a page in the navigation bar: the title of its front matter, else its file
/// stem, and the address `/{stem}/`.
pub fn nav_entry(name: &str, front: &Option<Frontmatter>) -> (r: (String, String))
    ensures
        (r.0@, r.1@) == nav_entry_of(name@, *front),
{
    let (stem, _) = split_name(name);
    let mut url = String::from_str("/");
    url.append(stem.as_str());
    url.append("/");
    let title = match front {
        Some(f) => f.title.clone(),
        None => stem,
    };
    (title, url)
}

/// The entry of a post in the writings index: the title of its front matter, else its file
/// stem; the date of its front matter; and the address `/writings/{stem}.html`.
pub fn post_entry(name: &str, front: &Option<Frontmatter>) -> (r: PostMeta)
    ensures
        r.title@ == (match *front {
            Some(f) => f.title@,
            None => name_stem(name@),
        }),
        opt_view(r.date) == (match *front {
            Some(f) => opt_view(f.date),
            None => None,
        }),
        r.url@ == "/writings/"@ + name_stem(name@) + ".html"@,
{
    let (stem, _) = split_name(name);
    let mut url = String::from_str("/writings/");
    url.append(stem.as_str());
    url.append(".html");
    match front {
        Some(f) => {
            let date = match &f.date {
                Some(d) => Some(d.clone()),
                None => None,
            };
            PostMeta { title: f.title.clone(), date, url }
        },
        None => PostMeta { title: stem, date: None, url },
    }
}

} // verus!
