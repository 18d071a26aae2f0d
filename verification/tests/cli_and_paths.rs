use kuro::cli::{parse_command, Commands};
use kuro::paths::{extension_of, join_path, path_file_name, split_name};
use kuro::project::{first_post_md, new_file_content, theme_files, Project};

fn args(list: &[&str]) -> Vec<String> {
    list.iter().map(|s| s.to_string()).collect()
}

#[test]
fn parse_empty_is_nothing() {
    assert_eq!(parse_command(args(&[])), None);
}

#[test]
fn parse_help_is_nothing() {
    assert_eq!(parse_command(args(&["-h"])), None);
    assert_eq!(parse_command(args(&["--help"])), None);
    assert_eq!(parse_command(args(&["publish"])), None);
}

#[test]
fn parse_build_and_init_paths() {
    assert_eq!(parse_command(args(&["build"])), Some(Commands::Build(".".to_string())));
    assert_eq!(
        parse_command(args(&["build", "site", "extra"])),
        Some(Commands::Build("site".to_string()))
    );
    assert_eq!(parse_command(args(&["init"])), Some(Commands::Init(".".to_string())));
    assert_eq!(
        parse_command(args(&["init", "my-site"])),
        Some(Commands::Init("my-site".to_string()))
    );
}

#[test]
fn parse_serve_and_watch() {
    assert_eq!(
        parse_command(args(&["serve"])),
        Some(Commands::Serve { path: ".".to_string(), watch: false })
    );
    assert_eq!(
        parse_command(args(&["serve", "--watch"])),
        Some(Commands::Serve { path: ".".to_string(), watch: true })
    );
    assert_eq!(
        parse_command(args(&["serve", "--watch", "site"])),
        Some(Commands::Serve { path: "site".to_string(), watch: true })
    );
    assert_eq!(
        parse_command(args(&["serve", "site"])),
        Some(Commands::Serve { path: "site".to_string(), watch: false })
    );
}

#[test]
fn parse_new_needs_a_name() {
    assert_eq!(parse_command(args(&["new"])), None);
    assert_eq!(
        parse_command(args(&["new", "about"])),
        Some(Commands::New { name: "about".to_string(), post: false })
    );
    assert_eq!(
        parse_command(args(&["new", "my-post", "--post"])),
        Some(Commands::New { name: "my-post".to_string(), post: true })
    );
}

#[test]
fn join_paths_like_pathbuf() {
    assert_eq!(join_path("site", "content"), "site/content");
    assert_eq!(join_path("site/", "content"), "site/content");
    assert_eq!(join_path("", "content"), "content");
    assert_eq!(join_path("site", "/etc"), "/etc");
    assert_eq!(join_path("dist", ""), "dist/");
}

#[test]
fn file_names_like_path() {
    assert_eq!(path_file_name("dist/index.html"), Some("index.html".to_string()));
    assert_eq!(path_file_name("dist/writings/"), Some("writings".to_string()));
    assert_eq!(path_file_name("a/b/."), Some("b".to_string()));
    assert_eq!(path_file_name("a/.."), None);
    assert_eq!(path_file_name("/"), None);
    assert_eq!(path_file_name("."), None);
    assert_eq!(path_file_name(""), None);
}

#[test]
fn stems_and_extensions_like_path() {
    assert_eq!(split_name("about.md"), ("about".to_string(), Some("md".to_string())));
    assert_eq!(split_name("a.b.md"), ("a.b".to_string(), Some("md".to_string())));
    assert_eq!(split_name(".md"), (".md".to_string(), None));
    assert_eq!(split_name("README"), ("README".to_string(), None));
    assert_eq!(split_name("notes."), ("notes".to_string(), Some("".to_string())));
    assert_eq!(split_name(".."), ("..".to_string(), None));
    assert_eq!(extension_of("dist/site.css"), Some("css".to_string()));
    assert_eq!(extension_of("dist/.hidden"), None);
    assert_eq!(extension_of("dist/"), None);
}

#[test]
fn project_layout() {
    let p = Project::new("mysite".to_string());
    assert_eq!(p.root, "mysite");
    assert_eq!(p.source_dir, "mysite/content");
    assert_eq!(p.out_dir, "mysite/dist");
    assert_eq!(p.assets_dir, "mysite/static");
    assert_eq!(p.template_dir, "mysite/templates");
    let here = Project::new(".".to_string());
    assert_eq!(here.source_dir, "./content");
}

#[test]
fn project_derived_paths() {
    let p = Project::new("s".to_string());
    assert_eq!(p.new_file_path("about", false), "s/content/about.md");
    assert_eq!(p.new_file_path("hello", true), "s/content/writings/hello.md");
    assert_eq!(p.config_path(true), "s/kuro.yaml");
    assert_eq!(p.config_path(false), "s/kuro.yml");
    assert_eq!(p.page_output("about"), "s/dist/about/index.html");
    assert_eq!(p.post_output("hello"), "s/dist/writings/hello.html");
}

#[test]
fn first_post_text() {
    assert_eq!(
        first_post_md("2026-01-02"),
        "---\ntitle: \"First Post\"\ndate: \"2026-01-02\"\n---\n\nHello friend.\n\n## Section\n\n- item one\n- item two\n"
    );
}

#[test]
fn new_file_text() {
    assert_eq!(
        new_file_content("about", "2026-01-02"),
        "---\ntitle: \"about\"\ndate: \"2026-01-02\"\n---\n\n"
    );
}

#[test]
fn scaffold_layout() {
    let p = Project::new("s".to_string());
    assert_eq!(
        p.scaffold_dirs(),
        vec!["s", "s/content", "s/content/writings", "s/static", "s/dist", "s/templates"]
    );
    let files = p.scaffold_files("2026-01-02");
    let paths: Vec<&str> = files.iter().map(|f| f.0.as_str()).collect();
    assert_eq!(
        paths,
        vec![
            "s/kuro.yml",
            "s/content/index.md",
            "s/content/writings/first-post.md",
            "s/static/index.css",
            "s/static/reset.css",
            "s/static/index.js",
            "s/templates/base.html",
            "s/templates/header.html",
            "s/templates/footer.html",
            "s/templates/page.html",
            "s/templates/post.html",
            "s/templates/writings.html",
        ]
    );
    assert_eq!(files[2].1, first_post_md("2026-01-02"));
    assert_eq!(files[0].1, kuro::scaffold::DEFAULT_KURO_YAML);
    let theme = theme_files("out");
    assert_eq!(theme[0].0, "out/index.css");
    assert_eq!(theme[0].1, kuro::scaffold::INDEX_CSS);
    assert_eq!(theme[2].0, "out/index.js");
}

#[test]
fn first_post_is_a_new_file_with_greeting() {
    let d = "2026-04-05";
    assert_eq!(
        first_post_md(d),
        new_file_content("First Post", d) + "Hello friend.\n\n## Section\n\n- item one\n- item two\n"
    );
}

#[test]
fn project_dirs_start_with_root() {
    for root in ["site", "site/", "/abs/site", ""] {
        let p = Project::new(root.to_string());
        for dir in [&p.source_dir, &p.out_dir, &p.assets_dir, &p.template_dir] {
            assert!(dir.starts_with(root));
            assert!(dir.len() > root.len());
        }
    }
}
