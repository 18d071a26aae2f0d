//! The decisions of the development server: which file a request asks for, with which
//! content type, and what the reload endpoint answers.
use vstd::prelude::*;

use crate::paths::{extension_of, join_path, joined_path, path_extension};
use crate::scaffold::RELOAD_SCRIPT;
use crate::text::{decimal, decimal_string, replace_all, replaced, same_text, chars_of};

verus! {

/// What the server answers a request with.
#[derive(Debug, PartialEq, Eq)]
pub enum Route {
    /// The reload endpoint: the current build version, as JSON.
    Reload,
    /// The file at this path (or, when it is a directory, its `index.html`).
    File(String),
}

/// What a route holds, as text.
pub enum RouteSpec {
    Reload,
    File(Seq<char>),
}

impl View for Route {
    type V = RouteSpec;

    open spec fn view(&self) -> RouteSpec {
        match self {
            Route::Reload => RouteSpec::Reload,
            Route::File(p) => RouteSpec::File(p@),
        }
    }
}

/// The content types that the server names.
#[derive(Debug, Clone, Copy, PartialEq, Eq, Structural)]
pub enum ContentType {
    Html,
    Css,
    Js,
    Json,
}

/// `s` without the `/` characters it starts with.
pub open spec fn without_leading_slashes(s: Seq<char>) -> Seq<char>
    decreases s.len(),
{
    if s.len() > 0 && s[0] == '/' {
        without_leading_slashes(s.skip(1))
    } else {
        s
    }
}

/// The answer to a request for `url`: the reload endpoint while watching; the site's
/// `index.html` for `/`; else the path of the URL, its leading slashes left out, inside
/// the output directory.
pub open spec fn route_of(out_dir: Seq<char>, url: Seq<char>, watch: bool) -> RouteSpec {
    if watch && url == "/_kuro_reload"@ {
        RouteSpec::Reload
    } else if url == "/"@ {
        RouteSpec::File(joined_path(out_dir, "index.html"@))
    } else {
        RouteSpec::File(joined_path(out_dir, without_leading_slashes(url)))
    }
}

/// The content type of a file by its extension: `html`, `css`, `js` and `json` have one.
pub open spec fn content_type_of(ext: Option<Seq<char>>) -> Option<ContentType> {
    if ext == Some("html"@) {
        Some(ContentType::Html)
    } else if ext == Some("css"@) {
        Some(ContentType::Css)
    } else if ext == Some("js"@) {
        Some(ContentType::Js)
    } else if ext == Some("json"@) {
        Some(ContentType::Json)
    } else {
        None
    }
}

/// The body of the reload endpoint's answer: `{"version":N}`.
pub open spec fn reload_json(version: nat) -> Seq<char> {
    "{\"version\":"@ + decimal(version) + "}"@
}

/// A page with the reload script put before each `</body>`.
pub open spec fn with_reload(html: Seq<char>) -> Seq<char> {
    replaced(html, "</body>"@, RELOAD_SCRIPT@ + "</body>"@)
}

impl ContentType {
    /// The value of the `Content-Type` header for this type.
    pub fn header_value(&self) -> (r: &'static str)
        ensures
            r@ == (match *self {
                ContentType::Html => "text/html; charset=utf-8"@,
                ContentType::Css => "text/css; charset=utf-8"@,
                ContentType::Js => "text/javascript; charset=utf-8"@,
                ContentType::Json => "application/json"@,
            }),
    {
        match self {
            ContentType::Html => "text/html; charset=utf-8",
            ContentType::Css => "text/css; charset=utf-8",
            ContentType::Js => "text/javascript; charset=utf-8",
            ContentType::Json => "application/json",
        }
    }
}

fn strip_leading_slashes(url: &str) -> (r: String)
    ensures
        r@ == without_leading_slashes(url@),
{
    let v = chars_of(url);
    let mut i: usize = 0;
    assert(v@.skip(0) =~= v@);
    while i < v.len() && v[i] == '/'
        invariant
            v@ == url@,
            i <= v.len(),
            without_leading_slashes(v@.skip(i as int)) == without_leading_slashes(url@),
        decreases v.len() - i,
    {
        assert(v@.skip(i as int).skip(1) =~= v@.skip(i + 1));
        i = i + 1;
    }
    let mut r = String::new();
    let mut j = i;
    while j < v.len()
        invariant
            v@ == url@,
            i <= j <= v.len(),
            r@ == v@.subrange(i as int, j as int),
        decreases v.len() - j,
    {
        crate::text::push_char(&mut r, v[j]);
        assert(v@.subrange(i as int, j + 1) =~= v@.subrange(i as int, j as int).push(v@[j as int]));
        j = j + 1;
    }
    assert(v@.subrange(i as int, j as int) =~= v@.skip(i as int));
    r
}

/// The answer to a request for `url`, the site built in `out_dir`.
pub fn route(out_dir: &str, url: &str, watch: bool) -> (r: Route)
    ensures
        r@ == route_of(out_dir@, url@, watch),
{
    if watch && same_text(url, "/_kuro_reload") {
        Route::Reload
    } else if same_text(url, "/") {
        Route::File(join_path(out_dir, "index.html"))
    } else {
        let rest = strip_leading_slashes(url);
        Route::File(join_path(out_dir, rest.as_str()))
    }
}

/// The content type of the file at `path`, by its extension.
pub fn content_type(path: &str) -> (r: Option<ContentType>)
    ensures
        r == content_type_of(path_extension(path@)),
{
    match extension_of(path) {
        Some(e) => {
            if same_text(e.as_str(), "html") {
                Some(ContentType::Html)
            } else if same_text(e.as_str(), "css") {
                Some(ContentType::Css)
            } else if same_text(e.as_str(), "js") {
                Some(ContentType::Js)
            } else if same_text(e.as_str(), "json") {
                Some(ContentType::Json)
            } else {
                None
            }
        },
        None => None,
    }
}

/// Whether the file at `path` is served with the reload script: while watching, HTML files
/// are.
pub fn injects_reload(path: &str, watch: bool) -> (r: bool)
    ensures
        r == (watch && path_extension(path@) == Some("html"@)),
{
    match content_type(path) {
        Some(ContentType::Html) => watch,
        _ => false,
    }
}

/// A page with the reload script put before its closing body tag.
pub fn inject_reload(html: &str) -> (r: String)
    ensures
        r@ == with_reload(html@),
{
    proof {
        reveal_strlit("</body>");
    }
    let mut rep = String::from_str(RELOAD_SCRIPT);
    rep.append("</body>");
    replace_all(html, "</body>", rep.as_str())
}

/// The reload endpoint's answer for the build version `version`.
pub fn reload_body(version: u64) -> (r: String)
    ensures
        r@ == reload_json(version as nat),
{
    let mut r = String::from_str("{\"version\":");
    let digits = decimal_string(version);
    r.append(digits.as_str());
    r.append("}");
    r
}

} // verus!
