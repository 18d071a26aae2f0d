# kuro

A static-site generator for a personal website and blog: markdown pages and posts with
YAML front matter, rendered into HTML templates, with a navigation bar, footer links, a
writings index sorted newest first, and a development server that can rebuild and reload
on change.

## Layout

- `src/` is the verified library (Verus):
  - `text` – characters of strings, `replace`, `join`, decimal numbers;
  - `paths` – joining paths, file names, stems and extensions, as `std::path` means them;
  - `order` – the order of strings and of optional dates;
  - `cli` – which command the arguments ask for;
  - `project` – where the parts of a site live, and what a new site or page starts with;
  - `scaffold` – the starting files and fixed snippets;
  - `types` – templates, front matter, posts and configuration;
  - `utils`, `render` – markdown to HTML (comrak) and filling the templates;
  - `site` – which files are pages and posts, their entries, and their order;
  - `serve` – what the development server answers;
  - `laws` – properties that span several functions.
- `app/` is the program around it: the command line, the file system, the clock, YAML
  and JSON, front-matter splitting, file watching and the HTTP server.
- `tests/` runs the library on concrete values.
