//! A site on disk: where its parts live, and the files that a new site and a new page
//! start with.
use vstd::prelude::*;

use crate::paths::{join_path, joined_path};
use crate::scaffold::{
    BASE_HTML, DEFAULT_KURO_YAML, FOOTER_HTML, HEADER_HTML, INDEX_CSS, INDEX_JS, INDEX_MD, PAGE_HTML,
    POST_HTML, RESET_CSS, WRITINGS_HTML,
};

verus! {

/// The directories of a site, all inside its root.
#[derive(Debug, PartialEq, Eq)]
pub struct Project {
    pub root: String,
    pub source_dir: String,
    pub out_dir: String,
    pub assets_dir: String,
    pub template_dir: String,
}

/// The first post of a new site, dated `date`.
pub open spec fn first_post_text(date: Seq<char>) -> Seq<char> {
    "---\ntitle: \"First Post\"\ndate: \""@ + date
        + "\"\n---\n\nHello friend.\n\n## Section\n\n- item one\n- item two\n"@
}

/// A new page or post named `name`, dated `today`: front matter only.
pub open spec fn new_file_text(name: Seq<char>, today: Seq<char>) -> Seq<char> {
    "---\ntitle: \""@ + name + "\"\ndate: \""@ + today + "\"\n---\n\n"@
}

/// The file that a new page or post named `name` goes to: `content/{name}.md`, or
/// `content/writings/{name}.md` for a post.
pub open spec fn new_file_location(source_dir: Seq<char>, name: Seq<char>, post: bool) -> Seq<
    char,
> {
    let dir = if post {
        joined_path(source_dir, "writings"@)
    } else {
        source_dir
    };
    joined_path(dir, name + ".md"@)
}

impl Project {
    /// The site whose root is `root`: its sources in `content`, its output in `dist`, its
    /// theme assets in `static` and its templates in `templates`.
    pub fn new(root: String) -> (p: Project)
        ensures
            p.root@ == root@,
            p.source_dir@ == joined_path(root@, "content"@),
            p.out_dir@ == joined_path(root@, "dist"@),
            p.assets_dir@ == joined_path(root@, "static"@),
            p.template_dir@ == joined_path(root@, "templates"@),
    {
        let source_dir = join_path(root.as_str(), "content");
        let out_dir = join_path(root.as_str(), "dist");
        let assets_dir = join_path(root.as_str(), "static");
        let template_dir = join_path(root.as_str(), "templates");
        Project { source_dir, out_dir, assets_dir, template_dir, root }
    }

    /// The file that a new page, or post, named `name` is written to.
    pub fn new_file_path(&self, name: &str, post: bool) -> (r: String)
        ensures
            r@ == new_file_location(self.source_dir@, name@, post),
    {
        let dir = if post {
            join_path(self.source_dir.as_str(), "writings")
        } else {
            self.source_dir.clone()
        };
        let mut file = String::from_str(name);
        file.append(".md");
        join_path(dir.as_str(), file.as_str())
    }

    /// The configuration file: `kuro.yaml` when it exists, else `kuro.yml`.
    pub fn config_path(&self, yaml_exists: bool) -> (r: String)
        ensures
            r@ == joined_path(
                self.root@,
                if yaml_exists {
                    "kuro.yaml"@
                } else {
                    "kuro.yml"@
                },
            ),
    {
        if yaml_exists {
            join_path(self.root.as_str(), "kuro.yaml")
        } else {
            join_path(self.root.as_str(), "kuro.yml")
        }
    }

    /// The file that the page whose file stem is `stem` is built to: `dist/{stem}/index.html`.
    pub fn page_output(&self, stem: &str) -> (r: String)
        ensures
            r@ == joined_path(joined_path(self.out_dir@, stem@), "index.html"@),
    {
        let dir = join_path(self.out_dir.as_str(), stem);
        join_path(dir.as_str(), "index.html")
    }

    /// The file that the post whose file stem is `stem` is built to:
    /// `dist/writings/{stem}.html`.
    pub fn post_output(&self, stem: &str) -> (r: String)
        ensures
            r@ == joined_path(joined_path(self.out_dir@, "writings"@), stem@ + ".html"@),
    {
        let dir = join_path(self.out_dir.as_str(), "writings");
        let mut file = String::from_str(stem);
        file.append(".html");
        join_path(dir.as_str(), file.as_str())
    }
}

/// The first post of a new site, dated `date`.
pub fn first_post_md(date: &str) -> (r: String)
    ensures
        r@ == first_post_text(date@),
{
    let mut r = String::from_str("---\ntitle: \"First Post\"\ndate: \"");
    r.append(date);
    r.append("\"\n---\n\nHello friend.\n\n## Section\n\n- item one\n- item two\n");
    r
}

/// The text of a new page or post named `name`, dated `today`.
pub fn new_file_content(name: &str, today: &str) -> (r: String)
    ensures
        r@ == new_file_text(name@, today@),
{
    let mut r = String::from_str("---\ntitle: \"");
    r.append(name);
    r.append("\"\ndate: \"");
    r.append(today);
    r.append("\"\n---\n\n");
    r
}

} // verus!

verus! {

/// The pairs of path and text, as text.
pub open spec fn file_views(files: Seq<(String, String)>) -> Seq<(Seq<char>, Seq<char>)> {
    files.map_values(|f: (String, String)| (f.0@, f.1@))
}

/// The theme files, written into `dir`: `index.css`, `reset.css` and `index.js`.
pub open spec fn theme_in(dir: Seq<char>) -> Seq<(Seq<char>, Seq<char>)> {
    seq![
        (joined_path(dir, "index.css"@), INDEX_CSS@),
        (joined_path(dir, "reset.css"@), RESET_CSS@),
        (joined_path(dir, "index.js"@), INDEX_JS@),
    ]
}

/// The directories that a new site is made of, in the order they are made.
pub open spec fn scaffold_dirs_of(p: Project) -> Seq<Seq<char>> {
    seq![
        p.root@,
        p.source_dir@,
        joined_path(p.source_dir@, "writings"@),
        p.assets_dir@,
        p.out_dir@,
        p.template_dir@,
    ]
}

/// The files that a new site starts with, in the order they are written: the
/// configuration, the home page and the first post (dated `today`), the theme, and the
/// templates.
pub open spec fn scaffold_files_of(p: Project, today: Seq<char>) -> Seq<(Seq<char>, Seq<char>)> {
    seq![
        (joined_path(p.root@, "kuro.yml"@), DEFAULT_KURO_YAML@),
        (joined_path(p.source_dir@, "index.md"@), INDEX_MD@),
        (joined_path(p.source_dir@, "writings/first-post.md"@), first_post_text(today)),
    ] + theme_in(p.assets_dir@) + seq![
        (joined_path(p.template_dir@, "base.html"@), BASE_HTML@),
        (joined_path(p.template_dir@, "header.html"@), HEADER_HTML@),
        (joined_path(p.template_dir@, "footer.html"@), FOOTER_HTML@),
        (joined_path(p.template_dir@, "page.html"@), PAGE_HTML@),
        (joined_path(p.template_dir@, "post.html"@), POST_HTML@),
        (joined_path(p.template_dir@, "writings.html"@), WRITINGS_HTML@),
    ]
}

fn file_entry(dir: &str, name: &str, text: &str) -> (r: (String, String))
    ensures
        r.0@ == joined_path(dir@, name@),
        r.1@ == text@,
{
    (join_path(dir, name), String::from_str(text))
}

/// The theme files, with their places in `dir`.
pub fn theme_files(dir: &str) -> (r: Vec<(String, String)>)
    ensures
        file_views(r@) == theme_in(dir@),
{
    let mut r: Vec<(String, String)> = Vec::new();
    r.push(file_entry(dir, "index.css", INDEX_CSS));
    r.push(file_entry(dir, "reset.css", RESET_CSS));
    r.push(file_entry(dir, "index.js", INDEX_JS));
    assert(file_views(r@) =~= theme_in(dir@));
    r
}

impl Project {
    /// The directories of a new site, in the order they are made.
    pub fn scaffold_dirs(&self) -> (r: Vec<String>)
        ensures
            crate::text::views(r@) == scaffold_dirs_of(*self),
    {
        let mut r: Vec<String> = Vec::new();
        r.push(self.root.clone());
        r.push(self.source_dir.clone());
        r.push(join_path(self.source_dir.as_str(), "writings"));
        r.push(self.assets_dir.clone());
        r.push(self.out_dir.clone());
        r.push(self.template_dir.clone());
        assert(crate::text::views(r@) =~= scaffold_dirs_of(*self));
        r
    }

    /// The files of a new site, with their places, in the order they are written; the first
    /// post is dated `today`.
    pub fn scaffold_files(&self, today: &str) -> (r: Vec<(String, String)>)
        ensures
            file_views(r@) == scaffold_files_of(*self, today@),
    {
        let mut r: Vec<(String, String)> = Vec::new();
        r.push(file_entry(self.root.as_str(), "kuro.yml", DEFAULT_KURO_YAML));
        r.push(file_entry(self.source_dir.as_str(), "index.md", INDEX_MD));
        r.push((join_path(self.source_dir.as_str(), "writings/first-post.md"), first_post_md(today)));
        let mut theme = theme_files(self.assets_dir.as_str());
        r.append(&mut theme);
        let t = self.template_dir.as_str();
        r.push(file_entry(t, "base.html", BASE_HTML));
        r.push(file_entry(t, "header.html", HEADER_HTML));
        r.push(file_entry(t, "footer.html", FOOTER_HTML));
        r.push(file_entry(t, "page.html", PAGE_HTML));
        r.push(file_entry(t, "post.html", POST_HTML));
        r.push(file_entry(t, "writings.html", WRITINGS_HTML));
        assert(file_views(r@) =~= scaffold_files_of(*self, today@));
        r
    }
}

} // verus!
