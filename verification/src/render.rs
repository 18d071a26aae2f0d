//! A renderer that holds the templates and the configured links of a site.
use vstd::prelude::*;

use crate::types::{Config, Frontmatter, PostMeta, Templates};
use crate::utils::{
    compose_page, compose_post, compose_writings, footer_links_html, get_site_path,
    markdown_html, md_to_html, nav_bar_html, page_document, post_document, update_footer,
    writings_document,
};

verus! {

/// Renders the pages of one site: its templates, with the footer links and the navigation
/// bar made once from its configuration.
pub struct SiteRenderer {
    templates: Templates,
    footer_links: String,
    nav_bar: String,
}

impl SiteRenderer {
    /// The templates that the renderer fills.
    pub closed spec fn templates(&self) -> Templates {
        self.templates
    }

    /// The footer links that go into each footer.
    pub closed spec fn footer_links(&self) -> Seq<char> {
        self.footer_links@
    }

    /// The navigation bar that goes into each header.
    pub closed spec fn nav_bar(&self) -> Seq<char> {
        self.nav_bar@
    }

    /// A renderer for the templates, with the links of the configuration.
    pub fn new(templates: Templates, config: &Config) -> (r: Self)
        ensures
            r.templates() == templates,
            r.footer_links() == footer_links_html(config.footer_links@),
            r.nav_bar() == nav_bar_html(config.site_paths@),
    {
        let footer_links = update_footer(config);
        let nav_bar = get_site_path(config);
        SiteRenderer { templates, footer_links, nav_bar }
    }

    /// A page, from its front matter and markdown body.
    pub fn render_page(&self, front: &Option<Frontmatter>, input: &str) -> (r: String)
        ensures
            r@ == page_document(
                self.templates(),
                self.footer_links(),
                self.nav_bar(),
                *front,
                markdown_html(input@),
            ),
    {
        let html = md_to_html(input);
        compose_page(
            &self.templates,
            self.footer_links.as_str(),
            self.nav_bar.as_str(),
            front,
            html.as_str(),
        )
    }

    /// A post, from its front matter and markdown body.
    pub fn render_post(&self, front: &Option<Frontmatter>, input: &str) -> (r: String)
        ensures
            r@ == post_document(
                self.templates(),
                self.footer_links(),
                self.nav_bar(),
                *front,
                markdown_html(input@),
            ),
    {
        let html = md_to_html(input);
        compose_post(
            &self.templates,
            self.footer_links.as_str(),
            self.nav_bar.as_str(),
            front,
            html.as_str(),
        )
    }

    /// The writings index, listing the posts in the order given.
    pub fn render_writings(&self, posts: &[PostMeta]) -> (r: String)
        ensures
            r@ == writings_document(self.templates(), self.footer_links(), self.nav_bar(), posts@),
    {
        compose_writings(&self.templates, self.footer_links.as_str(), self.nav_bar.as_str(), posts)
    }
}

} // verus!
