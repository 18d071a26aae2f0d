//! The data that the site is built from.
use vstd::prelude::*;

verus! {

/// The HTML templates of a site, one per kind of page or part.
#[derive(Debug, PartialEq, Eq)]
pub struct Templates {
    pub base: String,
    pub header: String,
    pub footer: String,
    pub page: String,
    pub post: String,
    pub writings: String,
}

/// The front matter at the head of a markdown file.
#[derive(Debug, PartialEq, Eq)]
pub struct Frontmatter {
    pub title: String,
    pub date: Option<String>,
}

/// A blog post, as the writings index lists it.
#[derive(Debug, PartialEq, Eq)]
pub struct PostMeta {
    pub title: String,
    pub date: Option<String>,
    pub url: String,
}

/// A link in the footer.
#[derive(Debug, PartialEq, Eq)]
pub struct FooterLink {
    pub label: String,
    pub url: String,
}

/// A link in the navigation bar.
#[derive(Debug, PartialEq, Eq)]
pub struct SitePaths {
    pub label: String,
    pub path: String,
}

/// The site's configuration file; a missing list is empty.
#[derive(Debug, PartialEq, Eq)]
pub struct Config {
    pub footer_links: Vec<FooterLink>,
    pub site_paths: Vec<SitePaths>,
}

/// The text of an optional string.
pub open spec fn opt_view(s: Option<String>) -> Option<Seq<char>> {
    match s {
        Some(s) => Some(s@),
        None => None,
    }
}

} // verus!
