//! Turning markdown and the site's configuration into HTML, and filling the templates.
use vstd::prelude::*;

use crate::scaffold::CARD_HTML;
use crate::text::{join, joined, replace_all, replaced, views};
use crate::types::{Config, FooterLink, Frontmatter, PostMeta, SitePaths, Templates};

verus! {

/// The HTML that comrak renders from a markdown text, with tables, autolinks,
/// strikethrough, task lists, footnotes and smart punctuation turned on.
pub uninterp spec fn markdown_html(md: Seq<char>) -> Seq<char>;

/// `comrak::markdown_to_html` with the options above. Claimed: the result is a function of
/// the markdown text alone (`markdown_html`); what HTML comrak writes is not stated.
#[verifier::external_body]
pub fn md_to_html(input: &str) -> (html: String)
    ensures
        html@ == markdown_html(input@),
{
    let mut options = comrak::Options::default();
    options.extension.table = true;
    options.extension.autolink = true;
    options.extension.strikethrough = true;
    options.extension.tasklist = true;
    options.extension.footnotes = true;
    options.parse.smart = true;
    comrak::markdown_to_html(input, &options)
}

/// The placeholders that the templates hold are not empty.
pub proof fn lemma_placeholders()
    ensures
        "{title}"@.len() > 0,
        "{header}"@.len() > 0,
        "{content}"@.len() > 0,
        "{footer}"@.len() > 0,
        "{links}"@.len() > 0,
        "{date}"@.len() > 0,
        "{posts}"@.len() > 0,
        "{url}"@.len() > 0,
{
    reveal_strlit("{title}");
    reveal_strlit("{header}");
    reveal_strlit("{content}");
    reveal_strlit("{footer}");
    reveal_strlit("{links}");
    reveal_strlit("{date}");
    reveal_strlit("{posts}");
    reveal_strlit("{url}");
}

/// `<a href="{href}">{text}</a>`.
pub open spec fn anchor(href: Seq<char>, text: Seq<char>) -> Seq<char> {
    "<a href=\""@ + href + "\">"@ + text + "</a>"@
}

/// The footer's links, one anchor per link, separated by tabs.
pub open spec fn footer_links_html(links: Seq<FooterLink>) -> Seq<char> {
    joined(links.map_values(|l: FooterLink| anchor(l.url@, l.label@)), "\t"@)
}

/// The navigation bar's links, one anchor per path, one per line.
pub open spec fn nav_bar_html(paths: Seq<SitePaths>) -> Seq<char> {
    joined(paths.map_values(|p: SitePaths| anchor(p.path@, p.label@)), "\n"@)
}

/// The title of a page: that of its front matter, else `Untitled`.
pub open spec fn title_of(front: Option<Frontmatter>) -> Seq<char> {
    match front {
        Some(f) => f.title@,
        None => "Untitled"@,
    }
}

/// The date line of a post: `<p class="date">{date}</p>` when its front matter has a
/// date, else nothing.
pub open spec fn date_paragraph(front: Option<Frontmatter>) -> Seq<char> {
    match front {
        Some(f) => match f.date {
            Some(d) => "<p class=\"date\">"@ + d@ + "</p>"@,
            None => Seq::empty(),
        },
        None => Seq::empty(),
    }
}

/// The frame `base` with its title, header, content and footer filled in, in that order.
pub open spec fn document(
    base: Seq<char>,
    title: Seq<char>,
    header: Seq<char>,
    content: Seq<char>,
    footer: Seq<char>,
) -> Seq<char> {
    replaced(
        replaced(
            replaced(replaced(base, "{title}"@, title), "{header}"@, header),
            "{content}"@,
            content,
        ),
        "{footer}"@,
        footer,
    )
}

/// A page: the page template around its HTML, in the frame, with the navigation bar in the
/// header and the footer links in the footer.
pub open spec fn page_document(
    t: Templates,
    footer_links: Seq<char>,
    nav_bar: Seq<char>,
    front: Option<Frontmatter>,
    html: Seq<char>,
) -> Seq<char> {
    document(
        t.base@,
        title_of(front),
        replaced(t.header@, "{links}"@, nav_bar),
        replaced(t.page@, "{content}"@, html),
        replaced(t.footer@, "{links}"@, footer_links),
    )
}

/// A post: the post template with its title, date line and HTML, in the frame.
pub open spec fn post_document(
    t: Templates,
    footer_links: Seq<char>,
    nav_bar: Seq<char>,
    front: Option<Frontmatter>,
    html: Seq<char>,
) -> Seq<char> {
    document(
        t.base@,
        title_of(front),
        replaced(t.header@, "{links}"@, nav_bar),
        replaced(
            replaced(replaced(t.post@, "{title}"@, title_of(front)), "{date}"@, date_paragraph(front)),
            "{content}"@,
            html,
        ),
        replaced(t.footer@, "{links}"@, footer_links),
    )
}

/// The date line of a post's card, when the post has a date.
pub open spec fn card_date(date: Option<String>) -> Seq<char> {
    match date {
        Some(d) => "\n      <span class=\"post-card-date\">"@ + d@ + "</span>"@,
        None => Seq::empty(),
    }
}

/// The card of one post.
pub open spec fn card_html(p: PostMeta) -> Seq<char> {
    replaced(
        replaced(replaced(CARD_HTML@, "{url}"@, p.url@), "{title}"@, p.title@),
        "{date}"@,
        card_date(p.date),
    )
}

/// The writings index: the cards of the posts, in order, in the writings template, in the
/// frame, titled `Writings`.
pub open spec fn writings_document(
    t: Templates,
    footer_links: Seq<char>,
    nav_bar: Seq<char>,
    posts: Seq<PostMeta>,
) -> Seq<char> {
    document(
        t.base@,
        "Writings"@,
        replaced(t.header@, "{links}"@, nav_bar),
        replaced(t.writings@, "{posts}"@, joined(posts.map_values(|p: PostMeta| card_html(p)), "\n    "@)),
        replaced(t.footer@, "{links}"@, footer_links),
    )
}

/// The links of the extra pages, each on a line of its own: `(title, url)` pairs.
pub open spec fn page_links(pages: Seq<(String, String)>) -> Seq<char>
    decreases pages.len(),
{
    if pages.len() == 0 {
        Seq::empty()
    } else {
        page_links(pages.drop_last()) + "\n    "@ + anchor(pages.last().1@, pages.last().0@)
    }
}

/// The header with the navigation bar: Home, the extra pages in order, then Writings.
pub open spec fn header_html(pages: Seq<(String, String)>) -> Seq<char> {
    "\n<header>\n  <nav>\n"@ + "    "@ + anchor("/"@, "Home"@) + page_links(pages) + "\n    "@
        + anchor("/writings/"@, "Writings"@) + "\n  </nav>\n</header>\n"@
}

fn push_anchor(out: &mut String, href: &str, text: &str)
    ensures
        final(out)@ == old(out)@ + anchor(href@, text@),
{
    out.append("<a href=\"");
    out.append(href);
    out.append("\">");
    out.append(text);
    out.append("</a>");
}

fn anchor_text(href: &str, text: &str) -> (r: String)
    ensures
        r@ == anchor(href@, text@),
{
    let mut r = String::new();
    push_anchor(&mut r, href, text);
    r
}

/// The header with the navigation bar that lists the extra pages, given as
/// `(title, url)` pairs, between Home and Writings.
pub fn build_header_html(extra_pages: &[(String, String)]) -> (r: String)
    ensures
        r@ == header_html(extra_pages@),
{
    let mut links = String::new();
    links.append("    ");
    push_anchor(&mut links, "/", "Home");
    let ghost head = links@;
    let mut i: usize = 0;
    while i < extra_pages.len()
        invariant
            i <= extra_pages.len(),
            links@ == head + page_links(extra_pages@.take(i as int)),
        decreases extra_pages.len() - i,
    {
        links.append("\n    ");
        push_anchor(&mut links, extra_pages[i].1.as_str(), extra_pages[i].0.as_str());
        assert(extra_pages@.take(i + 1).drop_last() =~= extra_pages@.take(i as int));
        i = i + 1;
    }
    assert(extra_pages@.take(i as int) =~= extra_pages@);
    links.append("\n    ");
    push_anchor(&mut links, "/writings/", "Writings");
    let mut r = String::new();
    r.append("\n<header>\n  <nav>\n");
    r.append(links.as_str());
    r.append("\n  </nav>\n</header>\n");
    r
}

/// The footer's links as HTML.
pub fn update_footer(config: &Config) -> (r: String)
    ensures
        r@ == footer_links_html(config.footer_links@),
{
    let mut items: Vec<String> = Vec::new();
    let mut i: usize = 0;
    while i < config.footer_links.len()
        invariant
            i <= config.footer_links.len(),
            views(items@) == config.footer_links@.take(i as int).map_values(
                |l: FooterLink| anchor(l.url@, l.label@),
            ),
        decreases config.footer_links.len() - i,
    {
        let link = &config.footer_links[i];
        let ghost prev = views(items@);
        items.push(anchor_text(link.url.as_str(), link.label.as_str()));
        assert(views(items@) =~= prev.push(anchor(link.url@, link.label@)));
        assert(config.footer_links@.take(i + 1).map_values(
            |l: FooterLink| anchor(l.url@, l.label@),
        ) =~= config.footer_links@.take(i as int).map_values(
            |l: FooterLink| anchor(l.url@, l.label@),
        ).push(anchor(link.url@, link.label@)));
        i = i + 1;
    }
    assert(config.footer_links@.take(i as int) =~= config.footer_links@);
    join(&items, "\t")
}

/// The navigation bar's links as HTML.
pub fn get_site_path(config: &Config) -> (r: String)
    ensures
        r@ == nav_bar_html(config.site_paths@),
{
    let mut items: Vec<String> = Vec::new();
    let mut i: usize = 0;
    while i < config.site_paths.len()
        invariant
            i <= config.site_paths.len(),
            views(items@) == config.site_paths@.take(i as int).map_values(
                |p: SitePaths| anchor(p.path@, p.label@),
            ),
        decreases config.site_paths.len() - i,
    {
        let sp = &config.site_paths[i];
        let ghost prev = views(items@);
        items.push(anchor_text(sp.path.as_str(), sp.label.as_str()));
        assert(views(items@) =~= prev.push(anchor(sp.path@, sp.label@)));
        assert(config.site_paths@.take(i + 1).map_values(|p: SitePaths| anchor(p.path@, p.label@))
            =~= config.site_paths@.take(i as int).map_values(
            |p: SitePaths| anchor(p.path@, p.label@),
        ).push(anchor(sp.path@, sp.label@)));
        i = i + 1;
    }
    assert(config.site_paths@.take(i as int) =~= config.site_paths@);
    join(&items, "\n")
}

/// The frame filled in with the title, header, content and footer, in that order.
fn fill_frame(base: &str, title: &str, header: &str, content: &str, footer: &str) -> (r: String)
    ensures
        r@ == document(base@, title@, header@, content@, footer@),
{
    proof {
        lemma_placeholders();
    }
    let a = replace_all(base, "{title}", title);
    let b = replace_all(a.as_str(), "{header}", header);
    let c = replace_all(b.as_str(), "{content}", content);
    replace_all(c.as_str(), "{footer}", footer)
}

fn title_text(front: &Option<Frontmatter>) -> (r: &str)
    ensures
        r@ == title_of(*front),
{
    match front {
        Some(f) => f.title.as_str(),
        None => "Untitled",
    }
}

/// A page built from the HTML of its markdown.
pub fn compose_page(
    templates: &Templates,
    footer_links: &str,
    nav_bar: &str,
    front: &Option<Frontmatter>,
    html: &str,
) -> (r: String)
    ensures
        r@ == page_document(*templates, footer_links@, nav_bar@, *front, html@),
{
    proof {
        lemma_placeholders();
    }
    let body = replace_all(templates.page.as_str(), "{content}", html);
    let footer = replace_all(templates.footer.as_str(), "{links}", footer_links);
    let header = replace_all(templates.header.as_str(), "{links}", nav_bar);
    fill_frame(
        templates.base.as_str(),
        title_text(front),
        header.as_str(),
        body.as_str(),
        footer.as_str(),
    )
}

/// A post built from the HTML of its markdown.
pub fn compose_post(
    templates: &Templates,
    footer_links: &str,
    nav_bar: &str,
    front: &Option<Frontmatter>,
    html: &str,
) -> (r: String)
    ensures
        r@ == post_document(*templates, footer_links@, nav_bar@, *front, html@),
{
    proof {
        lemma_placeholders();
    }
    let title = title_text(front);
    let footer = replace_all(templates.footer.as_str(), "{links}", footer_links);
    let header = replace_all(templates.header.as_str(), "{links}", nav_bar);
    let mut date_html = String::new();
    match front {
        Some(f) => match &f.date {
            Some(d) => {
                date_html.append("<p class=\"date\">");
                date_html.append(d.as_str());
                date_html.append("</p>");
            },
            None => {},
        },
        None => {},
    }
    let a = replace_all(templates.post.as_str(), "{title}", title);
    let b = replace_all(a.as_str(), "{date}", date_html.as_str());
    let body = replace_all(b.as_str(), "{content}", html);
    fill_frame(templates.base.as_str(), title, header.as_str(), body.as_str(), footer.as_str())
}

fn card_for(p: &PostMeta) -> (r: String)
    ensures
        r@ == card_html(*p),
{
    proof {
        lemma_placeholders();
    }
    let mut date = String::new();
    match &p.date {
        Some(d) => {
            date.append("\n      <span class=\"post-card-date\">");
            date.append(d.as_str());
            date.append("</span>");
        },
        None => {},
    }
    let a = replace_all(CARD_HTML, "{url}", p.url.as_str());
    let b = replace_all(a.as_str(), "{title}", p.title.as_str());
    replace_all(b.as_str(), "{date}", date.as_str())
}

/// The writings index, listing the posts in the order given.
pub fn compose_writings(
    templates: &Templates,
    footer_links: &str,
    nav_bar: &str,
    posts: &[PostMeta],
) -> (r: String)
    ensures
        r@ == writings_document(*templates, footer_links@, nav_bar@, posts@),
{
    proof {
        lemma_placeholders();
    }
    let mut cards: Vec<String> = Vec::new();
    let mut i: usize = 0;
    while i < posts.len()
        invariant
            i <= posts.len(),
            views(cards@) == posts@.take(i as int).map_values(|p: PostMeta| card_html(p)),
        decreases posts.len() - i,
    {
        let ghost prev = views(cards@);
        cards.push(card_for(&posts[i]));
        assert(views(cards@) =~= prev.push(card_html(posts@[i as int])));
        assert(posts@.take(i + 1).map_values(|p: PostMeta| card_html(p)) =~= posts@.take(
            i as int,
        ).map_values(|p: PostMeta| card_html(p)).push(card_html(posts@[i as int])));
        i = i + 1;
    }
    assert(posts@.take(i as int) =~= posts@);
    let items = join(&cards, "\n    ");
    let footer = replace_all(templates.footer.as_str(), "{links}", footer_links);
    let header = replace_all(templates.header.as_str(), "{links}", nav_bar);
    let body = replace_all(templates.writings.as_str(), "{posts}", items.as_str());
    fill_frame(templates.base.as_str(), "Writings", header.as_str(), body.as_str(), footer.as_str())
}

/// A page, from its front matter and markdown body, with the footer and navigation bar of
/// the configuration.
pub fn render_page(
    front: &Option<Frontmatter>,
    content: &str,
    templates: &Templates,
    config: &Config,
) -> (r: String)
    ensures
        r@ == page_document(
            *templates,
            footer_links_html(config.footer_links@),
            nav_bar_html(config.site_paths@),
            *front,
            markdown_html(content@),
        ),
{
    let html = md_to_html(content);
    let footer_links = update_footer(config);
    let nav_bar = get_site_path(config);
    compose_page(templates, footer_links.as_str(), nav_bar.as_str(), front, html.as_str())
}

/// The writings index of the posts, with the footer and navigation bar of the
/// configuration.
pub fn render_writings(posts: &[PostMeta], templates: &Templates, config: &Config) -> (r: String)
    ensures
        r@ == writings_document(
            *templates,
            footer_links_html(config.footer_links@),
            nav_bar_html(config.site_paths@),
            posts@,
        ),
{
    let footer_links = update_footer(config);
    let nav_bar = get_site_path(config);
    compose_writings(templates, footer_links.as_str(), nav_bar.as_str(), posts)
}

/// A post, from its front matter and markdown body, with the footer and navigation bar of
/// the configuration.
pub fn render_post(
    front: &Option<Frontmatter>,
    content: &str,
    templates: &Templates,
    config: &Config,
) -> (r: String)
    ensures
        r@ == post_document(
            *templates,
            footer_links_html(config.footer_links@),
            nav_bar_html(config.site_paths@),
            *front,
            markdown_html(content@),
        ),
{
    let html = md_to_html(content);
    let footer_links = update_footer(config);
    let nav_bar = get_site_path(config);
    compose_post(templates, footer_links.as_str(), nav_bar.as_str(), front, html.as_str())
}

} // verus!
