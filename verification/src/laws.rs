//! Properties that hold across the library's functions.
use vstd::prelude::*;

use crate::order::{date_le, lemma_date_le_antisymmetric};
use crate::paths::joined_path;
use crate::project::{first_post_text, new_file_text, Project};
use crate::render::SiteRenderer;
use crate::serve::with_reload;
use crate::site::{is_newest_first, newest_first_by, post_key};
use crate::text::replaced;
use crate::types::{Config, Frontmatter, PostMeta, Templates};
use crate::utils::{
    footer_links_html, markdown_html, nav_bar_html, page_document, post_document,
    writings_document,
};

verus! {

/// A renderer made from templates and a configuration renders every page, post and
/// writings index exactly as the stand-alone `render_page`, `render_post` and
/// `render_writings` do from the same templates and configuration.
pub proof fn law_renderer_agrees_with_standalone(
    templates: Templates,
    config: Config,
    front: Option<Frontmatter>,
    content: Seq<char>,
    posts: Seq<PostMeta>,
)
    ensures
        forall|r: SiteRenderer|
            #![trigger r.templates()]
            r.templates() == templates && r.footer_links() == footer_links_html(
                config.footer_links@,
            ) && r.nav_bar() == nav_bar_html(config.site_paths@) ==> {
                &&& page_document(r.templates(), r.footer_links(), r.nav_bar(), front, markdown_html(content))
                    == page_document(
                    templates,
                    footer_links_html(config.footer_links@),
                    nav_bar_html(config.site_paths@),
                    front,
                    markdown_html(content),
                )
                &&& post_document(r.templates(), r.footer_links(), r.nav_bar(), front, markdown_html(content))
                    == post_document(
                    templates,
                    footer_links_html(config.footer_links@),
                    nav_bar_html(config.site_paths@),
                    front,
                    markdown_html(content),
                )
                &&& writings_document(r.templates(), r.footer_links(), r.nav_bar(), posts)
                    == writings_document(
                    templates,
                    footer_links_html(config.footer_links@),
                    nav_bar_html(config.site_paths@),
                    posts,
                )
            },
{
}

/// An injective map of `0..n` into itself that only grows is the identity.
proof fn lemma_increasing_permutation_is_identity(p: Seq<int>, n: nat)
    requires
        p.len() == n,
        forall|k: int| 0 <= k < n ==> 0 <= #[trigger] p[k] < n,
        forall|k: int, l: int| 0 <= k < l < n ==> p[k] < p[l],
    ensures
        forall|k: int| 0 <= k < n ==> #[trigger] p[k] == k,
    decreases n,
{
    if n > 0 {
        let q = p.drop_last();
        assert forall|k: int| 0 <= k < n - 1 implies 0 <= #[trigger] q[k] < n - 1 by {
            assert(p[k] < p[n - 1]);
        }
        lemma_increasing_permutation_is_identity(q, (n - 1) as nat);
        assert(p[n - 1] == n - 1) by {
            if n >= 2 {
                assert(q[n - 2] == n - 2);
            }
        }
        assert forall|k: int| 0 <= k < n implies #[trigger] p[k] == k by {
            if k < n - 1 {
                assert(q[k] == k);
            }
        }
    }
}

/// Sorting posts that are already newest first leaves them as they are; so sorting twice
/// gives what sorting once gives.
pub proof fn law_sort_posts_idempotent(posts: Seq<PostMeta>, once: Seq<PostMeta>, twice: Seq<PostMeta>)
    requires
        is_newest_first(posts, once),
        is_newest_first(once, twice),
    ensures
        twice == once,
{
    let p0 = choose|p: Seq<int>| newest_first_by(posts, once, p);
    let p = choose|p: Seq<int>| newest_first_by(once, twice, p);
    let n = once.len();
    assert forall|k: int, l: int| 0 <= k < l < n implies p[k] < p[l] by {
        if post_key(twice[k]) == post_key(twice[l]) {
        } else if p[l] < p[k] {
            assert(date_le(post_key(once[p[k]]), post_key(once[p[l]])));
            assert(date_le(post_key(twice[l]), post_key(twice[k])));
            lemma_date_le_antisymmetric(post_key(twice[k]), post_key(twice[l]));
        }
    }
    lemma_increasing_permutation_is_identity(p, n);
    assert forall|k: int| 0 <= k < n implies twice[k] == once[k] by {
        assert(p[k] == k);
    }
    assert(twice =~= once);
}

/// A page with no closing body tag is served as it was built, with no reload script.
pub proof fn law_reload_needs_body_tag(html: Seq<char>)
    requires
        forall|i: int| 0 <= i <= html.len() - "</body>"@.len() ==> #[trigger] html.subrange(
            i,
            i + "</body>"@.len(),
        ) != "</body>"@,
    ensures
        with_reload(html) == html,
{
    reveal_strlit("</body>");
    lemma_replaced_absent(html, "</body>"@, crate::scaffold::RELOAD_SCRIPT@ + "</body>"@);
}

proof fn lemma_replaced_absent(s: Seq<char>, pat: Seq<char>, rep: Seq<char>)
    requires
        pat.len() > 0,
        forall|i: int| 0 <= i <= s.len() - pat.len() ==> #[trigger] s.subrange(i, i + pat.len()) != pat,
    ensures
        replaced(s, pat, rep) == s,
    decreases s.len(),
{
    if s.len() >= pat.len() {
        assert(s.take(pat.len() as int) =~= s.subrange(0, pat.len() as int));
        let z: int = 0;
        assert(s.subrange(z, z + pat.len()) != pat);
        assert(s.subrange(z, z + pat.len()) =~= s.subrange(0, pat.len() as int));
        let t = s.skip(1);
        assert forall|i: int| 0 <= i <= t.len() - pat.len() implies #[trigger] t.subrange(
            i,
            i + pat.len(),
        ) != pat by {
            assert(t.subrange(i, i + pat.len()) =~= s.subrange(i + 1, i + 1 + pat.len()));
        }
        lemma_replaced_absent(t, pat, rep);
        assert(seq![s[0]] + t =~= s);
    }
}

/// Every directory of a site lies inside its root: the root, then a separator unless the
/// root is empty or ends in one.
pub proof fn law_project_dirs_inside_root(p: Project)
    requires
        p.source_dir@ == joined_path(p.root@, "content"@),
        p.out_dir@ == joined_path(p.root@, "dist"@),
        p.assets_dir@ == joined_path(p.root@, "static"@),
        p.template_dir@ == joined_path(p.root@, "templates"@),
    ensures
        p.source_dir@.take(p.root@.len() as int) == p.root@,
        p.out_dir@.take(p.root@.len() as int) == p.root@,
        p.assets_dir@.take(p.root@.len() as int) == p.root@,
        p.template_dir@.take(p.root@.len() as int) == p.root@,
        p.source_dir@.len() > p.root@.len(),
        p.out_dir@.len() > p.root@.len(),
        p.assets_dir@.len() > p.root@.len(),
        p.template_dir@.len() > p.root@.len(),
{
    reveal_strlit("content");
    reveal_strlit("dist");
    reveal_strlit("static");
    reveal_strlit("templates");
    let r = p.root@;
    assert(p.source_dir@.take(r.len() as int) =~= r);
    assert(p.out_dir@.take(r.len() as int) =~= r);
    assert(p.assets_dir@.take(r.len() as int) =~= r);
    assert(p.template_dir@.take(r.len() as int) =~= r);
}

/// The first post of a new site has the front matter that `new` writes for a post titled
/// `First Post` on the same date, followed by its greeting.
pub proof fn law_first_post_is_a_new_file(date: Seq<char>)
    ensures
        first_post_text(date) == new_file_text("First Post"@, date)
            + "Hello friend.\n\n## Section\n\n- item one\n- item two\n"@,
{
    reveal_strlit("---\ntitle: \"First Post\"\ndate: \"");
    reveal_strlit("\"\n---\n\nHello friend.\n\n## Section\n\n- item one\n- item two\n");
    reveal_strlit("---\ntitle: \"");
    reveal_strlit("First Post");
    reveal_strlit("\"\ndate: \"");
    reveal_strlit("\"\n---\n\n");
    reveal_strlit("Hello friend.\n\n## Section\n\n- item one\n- item two\n");
    assert(first_post_text(date) =~= new_file_text("First Post"@, date)
        + "Hello friend.\n\n## Section\n\n- item one\n- item two\n"@);
}

/// `y` is a prefix of `x`, or at the first place where they differ `y` has the smaller
/// character.
pub open spec fn prefix_or_smaller(y: Seq<char>, x: Seq<char>) -> bool {
    ||| (y.len() <= x.len() && y == x.take(y.len() as int))
    ||| exists|i: int|
        0 <= i < y.len() && i < x.len() && y.take(i) == x.take(i) && #[trigger] y[i] < x[i]
}

/// If `y` comes before `x` or equals it in the order of `String`, then `y` is a prefix of
/// `x`, or at the first place where they differ `y` has the smaller character.
proof fn lemma_text_le_means_prefix_or_smaller(y: Seq<char>, x: Seq<char>)
    requires
        crate::order::text_le(y, x),
    ensures
        prefix_or_smaller(y, x),
    decreases y.len(),
{
    if y.len() == 0 {
        assert(y =~= x.take(0));
    } else if y[0] != x[0] {
        assert(y.take(0) =~= x.take(0));
        assert(y[0] < x[0]);
    } else {
        let (y1, x1) = (y.skip(1), x.skip(1));
        lemma_text_le_means_prefix_or_smaller(y1, x1);
        if y1.len() <= x1.len() && y1 == x1.take(y1.len() as int) {
            assert(y =~= x.take(y.len() as int)) by {
                assert forall|j: int| 0 <= j < y.len() implies y[j] == x.take(y.len() as int)[j] by {
                    if j > 0 {
                        assert(y[j] == y1[j - 1]);
                        assert(x1.take(y1.len() as int)[j - 1] == x[j]);
                    }
                }
            }
        } else {
            let i = choose|i: int|
                0 <= i < y1.len() && i < x1.len() && y1.take(i) == x1.take(i) && #[trigger] y1[i]
                    < x1[i];
            assert(y[i + 1] == y1[i] && x[i + 1] == x1[i]);
            assert(0 <= i + 1 < y.len() && i + 1 < x.len() && y[i + 1] < x[i + 1]);
            assert(y.take(i + 1) =~= x.take(i + 1)) by {
                assert forall|j: int| 0 <= j < i + 1 implies #[trigger] y.take(i + 1)[j] == x.take(i + 1)[j] by {
                    if j > 0 {
                        assert(y1.take(i)[j - 1] == x1.take(i)[j - 1]);
                    }
                }
            }
        }
    }
}

/// Posts ordered newest first are the given posts, rearranged, with the later date of any two
/// first: an undated post never comes before a dated one, and of two dated posts the one
/// listed later has the date string that is a prefix of the other's or, at the first place
/// where the two differ, has the smaller character; so `2024-05-01` comes before
/// `2024-01-15`.
pub proof fn law_posts_listed_by_whole_date(posts: Seq<PostMeta>, out: Seq<PostMeta>)
    requires
        is_newest_first(posts, out),
    ensures
        out.len() == posts.len(),
        forall|k: int| 0 <= k < out.len() ==> posts.contains(#[trigger] out[k]),
        forall|k: int, l: int|
            0 <= k < l < out.len() && (#[trigger] out[k]).date is None ==> (#[trigger] out[l]).date
                is None,
        forall|k: int, l: int|
            0 <= k < l < out.len() && (#[trigger] out[k]).date is Some && (
            #[trigger] out[l]).date is Some ==> prefix_or_smaller(
                out[l].date->0@,
                out[k].date->0@,
            ),
{
    let p = choose|p: Seq<int>| newest_first_by(posts, out, p);
    assert forall|k: int| 0 <= k < out.len() implies posts.contains(#[trigger] out[k]) by {
        assert(out[k] == posts[p[k]]);
    }
    assert forall|k: int, l: int|
        0 <= k < l < out.len() && (#[trigger] out[k]).date is None implies (#[trigger] out[l]).date
        is None by {
        assert(date_le(post_key(out[l]), post_key(out[k])));
    }
    assert forall|k: int, l: int|
        0 <= k < l < out.len() && (#[trigger] out[k]).date is Some && (
        #[trigger] out[l]).date is Some implies prefix_or_smaller(
        out[l].date->0@,
        out[k].date->0@,
    ) by {
        assert(date_le(post_key(out[l]), post_key(out[k])));
        let dk = out[k].date->0;
        let dl = out[l].date->0;
        lemma_text_le_means_prefix_or_smaller(dl@, dk@);
    }
}

/// The header is Home, a link per extra page in order, then Writings: with no extra pages
/// it is exactly Home and Writings, and one more page adds exactly its own link, just
/// before Writings.
pub proof fn law_header_links_every_page(pages: Seq<(String, String)>, page: (String, String))
    ensures
        crate::utils::header_html(Seq::empty()) == "\n<header>\n  <nav>\n"@ + "    "@ + "<a href=\""@
            + "/"@ + "\">"@ + "Home"@ + "</a>"@ + ("\n    "@ + "<a href=\""@ + "/writings/"@
            + "\">"@ + "Writings"@ + "</a>"@ + "\n  </nav>\n</header>\n"@),
        crate::utils::header_html(pages).len() >= ("\n    "@ + "<a href=\""@ + "/writings/"@
            + "\">"@ + "Writings"@ + "</a>"@ + "\n  </nav>\n</header>\n"@).len(),
        crate::utils::header_html(pages.push(page)) == crate::utils::header_html(pages).take(
            crate::utils::header_html(pages).len() - ("\n    "@ + "<a href=\""@ + "/writings/"@
                + "\">"@ + "Writings"@ + "</a>"@ + "\n  </nav>\n</header>\n"@).len(),
        ) + ("\n    "@ + "<a href=\""@ + page.1@ + "\">"@ + page.0@ + "</a>"@) + ("\n    "@
            + "<a href=\""@ + "/writings/"@ + "\">"@ + "Writings"@ + "</a>"@
            + "\n  </nav>\n</header>\n"@),
{
    let w = "\n    "@ + "<a href=\""@ + "/writings/"@ + "\">"@ + "Writings"@ + "</a>"@
        + "\n  </nav>\n</header>\n"@;
    let head = "\n<header>\n  <nav>\n"@ + "    "@ + "<a href=\""@ + "/"@ + "\">"@ + "Home"@ + "</a>"@;
    assert(crate::utils::page_links(Seq::<(String, String)>::empty()) =~= Seq::<char>::empty());
    assert(crate::utils::header_html(Seq::empty()) =~= head + w);
    assert(pages.push(page).drop_last() =~= pages);
    let h = crate::utils::header_html(pages);
    assert(h =~= (head + crate::utils::page_links(pages)) + w);
    assert(h.take(h.len() - w.len()) =~= head + crate::utils::page_links(pages));
    assert(crate::utils::header_html(pages.push(page)) =~= h.take(h.len() - w.len()) + (
    "\n    "@ + "<a href=\""@ + page.1@ + "\">"@ + page.0@ + "</a>"@) + w);
}

/// A request for `/` is answered with the site's `index.html`; a request for any other URL
/// (the reload endpoint while watching aside) with the path of the URL, its leading
/// slashes left out, inside the output directory: `/about/` asks for `dist/about/`.
pub proof fn law_route_follows_the_url(out_dir: Seq<char>, url: Seq<char>, watch: bool)
    ensures
        url == "/"@ ==> crate::serve::route_of(out_dir, url, watch) == crate::serve::RouteSpec::File(
            joined_path(out_dir, "index.html"@),
        ),
        url != "/"@ && !(watch && url == "/_kuro_reload"@) ==> exists|k: int|
            0 <= k <= url.len() && (forall|j: int| 0 <= j < k ==> #[trigger] url[j] == '/') && (k
                == url.len() || url[k] != '/') && crate::serve::route_of(out_dir, url, watch)
                == crate::serve::RouteSpec::File(joined_path(out_dir, url.skip(k))),
{
    reveal_strlit("/");
    reveal_strlit("/_kuro_reload");
    assert("/"@.len() != "/_kuro_reload"@.len());
    if url != "/"@ && !(watch && url == "/_kuro_reload"@) {
        let k = lemma_leading_slashes(url);
        assert(crate::serve::route_of(out_dir, url, watch) == crate::serve::RouteSpec::File(
            joined_path(out_dir, url.skip(k)),
        ));
    }
}

proof fn lemma_leading_slashes(s: Seq<char>) -> (k: int)
    ensures
        0 <= k <= s.len(),
        forall|j: int| 0 <= j < k ==> #[trigger] s[j] == '/',
        k == s.len() || s[k] != '/',
        crate::serve::without_leading_slashes(s) == s.skip(k),
    decreases s.len(),
{
    if s.len() > 0 && s[0] == '/' {
        let k1 = lemma_leading_slashes(s.skip(1));
        assert forall|j: int| 0 <= j < k1 + 1 implies #[trigger] s[j] == '/' by {
            if j > 0 {
                assert(s[j] == s.skip(1)[j - 1]);
            }
        }
        assert(s.skip(1).skip(k1) =~= s.skip(k1 + 1));
        k1 + 1
    } else {
        assert(s.skip(0) =~= s);
        0
    }
}

/// Replacing in `a + t`, where no match starts inside `a`, leaves `a` as it is.
proof fn lemma_replaced_after_prefix(a: Seq<char>, t: Seq<char>, pat: Seq<char>, rep: Seq<char>)
    requires
        pat.len() > 0,
        forall|i: int|
            0 <= i < a.len() && i + pat.len() <= a.len() + t.len() ==> #[trigger] (a + t).subrange(
                i,
                i + pat.len(),
            ) != pat,
    ensures
        replaced(a + t, pat, rep) == a + replaced(t, pat, rep),
    decreases a.len(),
{
    let s = a + t;
    if a.len() == 0 {
        assert(s =~= t);
    } else if s.len() < pat.len() {
        assert(replaced(t, pat, rep) == t);
    } else {
        let z: int = 0;
        assert(s.subrange(z, z + pat.len()) != pat);
        assert(s.take(pat.len() as int) =~= s.subrange(z, z + pat.len()));
        let a1 = a.skip(1);
        assert(s.skip(1) =~= a1 + t);
        assert forall|i: int|
            0 <= i < a1.len() && i + pat.len() <= a1.len() + t.len() implies #[trigger] (a1
            + t).subrange(i, i + pat.len()) != pat by {
            assert((a1 + t).subrange(i, i + pat.len()) =~= s.subrange(i + 1, i + 1 + pat.len()));
        }
        lemma_replaced_after_prefix(a1, t, pat, rep);
        assert(seq![s[0]] + (a1 + replaced(t, pat, rep)) =~= a + replaced(t, pat, rep));
    }
}

/// The reload script goes right before the closing body tag: a page made of `a`, then
/// `</body>`, then `b`, where `</body>` is not found before the end of `a` nor anywhere in
/// `b`, is served as `a`, the script, `</body>`, `b`.
pub proof fn law_reload_script_before_body_tag(a: Seq<char>, b: Seq<char>)
    requires
        forall|i: int|
            0 <= i < a.len() ==> #[trigger] (a + "</body>"@ + b).subrange(i, i + "</body>"@.len())
                != "</body>"@,
        forall|i: int|
            0 <= i <= b.len() - "</body>"@.len() ==> #[trigger] b.subrange(i, i + "</body>"@.len())
                != "</body>"@,
    ensures
        with_reload(a + "</body>"@ + b) == a + crate::scaffold::RELOAD_SCRIPT@ + "</body>"@ + b,
{
    reveal_strlit("</body>");
    let pat = "</body>"@;
    let rep = crate::scaffold::RELOAD_SCRIPT@ + "</body>"@;
    let t = pat + b;
    assert(a + pat + b =~= a + t);
    lemma_replaced_after_prefix(a, t, pat, rep);
    assert(t.take(pat.len() as int) =~= pat);
    assert(t.skip(pat.len() as int) =~= b);
    lemma_replaced_absent(b, pat, rep);
    assert(a + rep + b =~= a + crate::scaffold::RELOAD_SCRIPT@ + "</body>"@ + b);
}

} // verus!
