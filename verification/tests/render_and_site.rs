use kuro::order::{date_at_most, text_at_most};
use kuro::render::SiteRenderer;
use kuro::scaffold::RELOAD_SCRIPT;
use kuro::serve::{content_type, inject_reload, injects_reload, reload_body, route, ContentType, Route};
use kuro::site::{nav_entry, page_sources, post_entry, post_sources, sort_posts};
use kuro::text::{chars_of, decimal_string, join, replace_all, same_text};
use kuro::types::{Config, FooterLink, Frontmatter, PostMeta, SitePaths, Templates};
use kuro::utils::{
    build_header_html, compose_page, compose_post, get_site_path, md_to_html, render_page,
    render_post, render_writings, update_footer,
};

fn templates() -> Templates {
    Templates {
        base: "<title>{title}</title>{header}<main>{content}</main>{footer}".to_string(),
        header: "<nav>{links}</nav>".to_string(),
        footer: "<footer>{links}</footer>".to_string(),
        page: "<article>{content}</article>".to_string(),
        post: "<h1>{title}</h1>{date}{content}".to_string(),
        writings: "<div>{posts}</div>".to_string(),
    }
}

fn config() -> Config {
    Config {
        footer_links: vec![
            FooterLink { label: "github".to_string(), url: "https://github.com/me".to_string() },
            FooterLink { label: "mail".to_string(), url: "mailto:me@x".to_string() },
        ],
        site_paths: vec![SitePaths { label: "about".to_string(), path: "/about".to_string() }],
    }
}

fn front(title: &str, date: Option<&str>) -> Option<Frontmatter> {
    Some(Frontmatter { title: title.to_string(), date: date.map(|d| d.to_string()) })
}

fn post(title: &str, date: Option<&str>) -> PostMeta {
    PostMeta {
        title: title.to_string(),
        date: date.map(|d| d.to_string()),
        url: format!("/writings/{}.html", title),
    }
}

#[test]
fn replace_like_str_replace() {
    assert_eq!(replace_all("a{x}b{x}", "{x}", "Z"), "aZbZ");
    assert_eq!(replace_all("aaa", "aa", "b"), "ba");
    assert_eq!(replace_all("none here", "{x}", "Z"), "none here");
    assert_eq!(replace_all("ééé", "é", "e"), "eee");
    assert_eq!(replace_all("", "x", "y"), "");
}

#[test]
fn join_like_slice_join() {
    let parts = vec!["a".to_string(), "b".to_string(), "c".to_string()];
    assert_eq!(join(&parts, ", "), "a, b, c");
    assert_eq!(join(&vec![], ", "), "");
    assert_eq!(join(&vec!["x".to_string()], ", "), "x");
}

#[test]
fn decimal_like_to_string() {
    assert_eq!(decimal_string(0), "0");
    assert_eq!(decimal_string(7), "7");
    assert_eq!(decimal_string(1234567890), "1234567890");
    assert_eq!(decimal_string(u64::MAX), u64::MAX.to_string());
}

#[test]
fn text_helpers() {
    assert_eq!(chars_of("héllo"), vec!['h', 'é', 'l', 'l', 'o']);
    assert!(same_text("abc", "abc"));
    assert!(!same_text("abc", "abd"));
    assert!(!same_text("abc", "ab"));
    assert!(text_at_most("abc", "abd"));
    assert!(text_at_most("ab", "abc"));
    assert!(text_at_most("abc", "abc"));
    assert!(!text_at_most("b", "abc"));
    assert!(date_at_most(&None, &Some("2020".to_string())));
    assert!(!date_at_most(&Some("2020".to_string()), &None));
    assert!(date_at_most(&Some("2020-01-01".to_string()), &Some("2021-01-01".to_string())));
}

#[test]
fn markdown_through_comrak() {
    assert_eq!(md_to_html("Hello"), "<p>Hello</p>\n");
    assert_eq!(md_to_html("# Title"), "<h1>Title</h1>\n");
    assert_eq!(md_to_html("~~gone~~"), "<p><del>gone</del></p>\n");
}

#[test]
fn header_with_pages() {
    let pages = vec![("About me".to_string(), "/about/".to_string())];
    assert_eq!(
        build_header_html(&pages),
        "\n<header>\n  <nav>\n    <a href=\"/\">Home</a>\n    <a href=\"/about/\">About me</a>\n    <a href=\"/writings/\">Writings</a>\n  </nav>\n</header>\n"
    );
    assert_eq!(
        build_header_html(&[]),
        "\n<header>\n  <nav>\n    <a href=\"/\">Home</a>\n    <a href=\"/writings/\">Writings</a>\n  </nav>\n</header>\n"
    );
}

#[test]
fn footer_and_nav_links() {
    let c = config();
    assert_eq!(
        update_footer(&c),
        "<a href=\"https://github.com/me\">github</a>\t<a href=\"mailto:me@x\">mail</a>"
    );
    assert_eq!(get_site_path(&c), "<a href=\"/about\">about</a>");
    let empty = Config { footer_links: vec![], site_paths: vec![] };
    assert_eq!(update_footer(&empty), "");
    assert_eq!(get_site_path(&empty), "");
}

#[test]
fn compose_page_fills_templates() {
    let t = templates();
    let page = compose_page(&t, "F", "N", &front("Hi", None), "<p>x</p>");
    assert_eq!(
        page,
        "<title>Hi</title><nav>N</nav><main><article><p>x</p></article></main><footer>F</footer>"
    );
    let untitled = compose_page(&t, "F", "N", &None, "");
    assert_eq!(
        untitled,
        "<title>Untitled</title><nav>N</nav><main><article></article></main><footer>F</footer>"
    );
}

#[test]
fn compose_post_has_date_line() {
    let t = templates();
    let dated = compose_post(&t, "F", "N", &front("Post", Some("2026-01-02")), "<p>b</p>");
    assert_eq!(
        dated,
        "<title>Post</title><nav>N</nav><main><h1>Post</h1><p class=\"date\">2026-01-02</p><p>b</p></main><footer>F</footer>"
    );
    let undated = compose_post(&t, "F", "N", &front("Post", None), "");
    assert_eq!(
        undated,
        "<title>Post</title><nav>N</nav><main><h1>Post</h1></main><footer>F</footer>"
    );
}

#[test]
fn render_page_with_config() {
    let page = render_page(&front("Home", None), "Hello", &templates(), &config());
    assert_eq!(
        page,
        "<title>Home</title><nav><a href=\"/about\">about</a></nav><main><article><p>Hello</p>\n</article></main><footer><a href=\"https://github.com/me\">github</a>\t<a href=\"mailto:me@x\">mail</a></footer>"
    );
}

#[test]
fn render_post_with_config() {
    let p = render_post(&None, "Hi", &templates(), &config());
    assert!(p.starts_with("<title>Untitled</title>"));
    assert!(p.contains("<h1>Untitled</h1><p>Hi</p>\n</main>"));
}

#[test]
fn render_writings_lists_cards() {
    let empty = Config { footer_links: vec![], site_paths: vec![] };
    let posts = vec![post("b", Some("2026-02-01")), post("a", None)];
    let w = render_writings(&posts, &templates(), &empty);
    let card_b = "<a class=\"post-card\" href=\"/writings/b.html\">\n      <span class=\"post-card-title\">b</span>\n      <span class=\"post-card-date\">2026-02-01</span>\n    </a>";
    let card_a = "<a class=\"post-card\" href=\"/writings/a.html\">\n      <span class=\"post-card-title\">a</span>\n    </a>";
    assert_eq!(
        w,
        format!(
            "<title>Writings</title><nav></nav><main><div>{}\n    {}</div></main><footer></footer>",
            card_b, card_a
        )
    );
}

#[test]
fn renderer_agrees_with_standalone_functions() {
    let r = SiteRenderer::new(templates(), &config());
    let f = front("Home", Some("2026-01-01"));
    assert_eq!(r.render_page(&f, "Hello"), render_page(&f, "Hello", &templates(), &config()));
    assert_eq!(r.render_post(&f, "Hello"), render_post(&f, "Hello", &templates(), &config()));
    let posts = vec![post("x", None)];
    assert_eq!(r.render_writings(&posts), render_writings(&posts, &templates(), &config()));
}

#[test]
fn sorting_posts_newest_first_and_stable() {
    let posts = vec![
        post("old", Some("2020-01-01")),
        post("none1", None),
        post("new", Some("2024-05-05")),
        post("same1", Some("2022-02-02")),
        post("none2", None),
        post("same2", Some("2022-02-02")),
    ];
    let sorted = sort_posts(posts);
    let titles: Vec<&str> = sorted.iter().map(|p| p.title.as_str()).collect();
    assert_eq!(titles, vec!["new", "same1", "same2", "old", "none1", "none2"]);
    let again = sort_posts(sorted);
    let titles2: Vec<&str> = again.iter().map(|p| p.title.as_str()).collect();
    assert_eq!(titles2, vec!["new", "same1", "same2", "old", "none1", "none2"]);
    assert!(sort_posts(vec![]).is_empty());
}

#[test]
fn page_and_post_sources() {
    let names: Vec<String> = ["zeta.md", "index.md", "about.md", "notes.txt", ".md", "writings", "b.md"]
        .iter()
        .map(|s| s.to_string())
        .collect();
    assert_eq!(page_sources(&names), vec!["about.md", "b.md", "zeta.md"]);
    assert_eq!(post_sources(&names), vec!["zeta.md", "index.md", "about.md", "b.md"]);
}

#[test]
fn nav_and_post_entries() {
    assert_eq!(
        nav_entry("about.md", &front("About me", None)),
        ("About me".to_string(), "/about/".to_string())
    );
    assert_eq!(nav_entry("about.md", &None), ("about".to_string(), "/about/".to_string()));
    let e = post_entry("hello.md", &front("Hello", Some("2026-03-03")));
    assert_eq!(
        e,
        PostMeta {
            title: "Hello".to_string(),
            date: Some("2026-03-03".to_string()),
            url: "/writings/hello.html".to_string(),
        }
    );
    let bare = post_entry("hello.md", &None);
    assert_eq!(bare.title, "hello");
    assert_eq!(bare.date, None);
}

#[test]
fn routing_requests() {
    assert_eq!(route("dist", "/", false), Route::File("dist/index.html".to_string()));
    assert_eq!(route("dist", "/_kuro_reload", true), Route::Reload);
    assert_eq!(
        route("dist", "/_kuro_reload", false),
        Route::File("dist/_kuro_reload".to_string())
    );
    assert_eq!(route("dist", "/writings/a.html", true), Route::File("dist/writings/a.html".to_string()));
    assert_eq!(route("dist", "//index.css", false), Route::File("dist/index.css".to_string()));
}

#[test]
fn content_types() {
    assert_eq!(content_type("dist/index.html"), Some(ContentType::Html));
    assert_eq!(content_type("dist/index.css"), Some(ContentType::Css));
    assert_eq!(content_type("dist/index.js"), Some(ContentType::Js));
    assert_eq!(content_type("dist/writings/index.json"), Some(ContentType::Json));
    assert_eq!(content_type("dist/logo.png"), None);
    assert_eq!(ContentType::Html.header_value(), "text/html; charset=utf-8");
    assert_eq!(ContentType::Json.header_value(), "application/json");
    assert!(injects_reload("dist/index.html", true));
    assert!(!injects_reload("dist/index.html", false));
    assert!(!injects_reload("dist/index.css", true));
}

#[test]
fn reload_script_and_endpoint() {
    assert_eq!(inject_reload("<body>x</body>"), format!("<body>x{}</body>", RELOAD_SCRIPT));
    assert_eq!(inject_reload("<p>no body tag</p>"), "<p>no body tag</p>");
    assert_eq!(reload_body(0), "{\"version\":0}");
    assert_eq!(reload_body(42), "{\"version\":42}");
}
