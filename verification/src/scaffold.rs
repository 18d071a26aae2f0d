//! The files that a new site starts with, and the fixed snippets that pages are made of.
use vstd::prelude::*;

verus! {

/// The configuration file of a new site.
pub const DEFAULT_KURO_YAML: &'static str = r#"
name: "My site"
author: "Your name"
description: "New Kuro Website"
url: "http://localhost:3000"
"#;

/// The home page of a new site.
pub const INDEX_MD: &'static str = r#"---
title = "Index"
date = ~
---

Welcome to my site.

This is my personal website powered by **kuro**.

## Posts

- [First Post](/writings/first-post.html)
"#;

/// The frame of every page: `{title}`, `{header}`, `{content}` and `{footer}` are filled in.
pub const BASE_HTML: &'static str = r#"
<!DOCTYPE html>
<html lang="en">
<head>
  <meta charset="utf-8">
  <title>{title}</title>
  <link rel="stylesheet" href="/reset.css">
  <link rel="stylesheet" href="/index.css">
</head>
<body>

{header}

<main>
{content}
</main>

{footer}

<script src="/index.js"></script>
</body>
</html>
"#;

/// The header of a new site.
pub const HEADER_HTML: &'static str = r#"
<header>
  <h1>{title}</h1>
  {date}
  <nav>
    <a href="/">Home</a>
    <a href="/writings/">Writings</a>
  </nav>
</header>
"#;

/// The footer of a new site.
pub const FOOTER_HTML: &'static str = r#"
<footer>
  <p>© 2026 My Site</p>
</footer>
"#;

/// The body of a page: `{content}` is filled in.
pub const PAGE_HTML: &'static str = r#"
<article>
{content}
</article>
"#;

/// The body of a post: `{title}`, `{date}` and `{content}` are filled in.
pub const POST_HTML: &'static str = r#"
<article>
  <h1>{title}</h1>
  {date}
  {content}
</article>
"#;

/// The body of the writings index: `{posts}` is filled in with the cards of the posts.
pub const WRITINGS_HTML: &'static str = r#"
<article>
  <h1>Writings</h1>
  <div class="post-cards">
    {posts}
  </div>
</article>
"#;

/// The card of one post in the writings index: `{url}`, `{title}` and `{date}` are filled in.
pub const CARD_HTML: &'static str = r#"<a class="post-card" href="{url}">
      <span class="post-card-title">{title}</span>{date}
    </a>"#;

/// The script that the development server adds to each page it serves while watching:
/// it polls the reload endpoint and reloads the page when the version changes.
pub const RELOAD_SCRIPT: &'static str = r#"<script>
(function(){
  var v=null;
  setInterval(async function(){
    try{
      var r=await fetch('/_kuro_reload');
      var d=await r.json();
      if(v===null)v=d.version;
      else if(d.version!==v)location.reload();
    }catch(e){}
  },500);
})();
</script>"#;

} // verus!

verus! {

/// The theme's reset style sheet.
pub const RESET_CSS: &'static str = r#"*, *::before, *::after {
  box-sizing: border-box;
}

* {
  margin: 0;
  padding: 0;
}

img, picture, video, canvas, svg {
  display: block;
  max-width: 100%;
}

input, button, textarea, select {
  font: inherit;
}
"#;

/// The theme's style sheet: a monospace page on a fixed grid.
pub const INDEX_CSS: &'static str = r#":root {
  --font-family: "JetBrains Mono", monospace;
  --line-height: 1.2rem;
  --text-color: #000;
  --background-color: #fff;
  --border-thickness: 2px;
}

html {
  font-family: var(--font-family);
  line-height: var(--line-height);
  color: var(--text-color);
  background-color: var(--background-color);
}

body {
  max-width: calc(80ch + 2ch);
  margin: 0 auto;
  padding: var(--line-height) 2ch;
}

header nav a, footer a {
  margin-right: 2ch;
}

h1, h2, h3 {
  font-weight: 800;
  margin: var(--line-height) 0;
}

p, ul, ol, pre, table {
  margin-bottom: var(--line-height);
}

.post-card {
  display: block;
  border: var(--border-thickness) solid var(--text-color);
  padding: var(--line-height) 1ch;
  margin-bottom: var(--line-height);
  text-decoration: none;
  color: inherit;
}

.post-card-date, .date {
  opacity: 0.6;
}
"#;

/// The theme's script: marks the page once it has loaded.
pub const INDEX_JS: &'static str = r#"document.addEventListener("DOMContentLoaded", function () {
  document.body.classList.add("loaded");
});
"#;

} // verus!
