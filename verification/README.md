# fixrs

Rewrites the qualified paths of Rust sources (`std::time::Instant::now()`)
into short names with `use` declarations at the head of each module
(`use std::time::Instant;` and `Instant::now()`), the fix that
`clippy::absolute_paths` asks for.

- `src/` is the library, verified with Verus: the scope of each module
  (`parser::scope`), the collection of the paths to shorten from the events
  of a walk over the syntax tree (`parser::collector`), the planning of the
  replacements and imports with their fallbacks when a name clashes
  (`rewriter::plan`), and the rebuilding of the source (`rewriter::apply`);
  also the settings and their hash, the clippy configuration and the
  crates named by the manifests (from their text, parsed with `toml`
  behind a trusted wrapper), the incremental cache, and the messages in each
  language.
- `app/` is the command: it parses the files with `syn` and records the
  walk over each syntax tree, reads the files of the manifests and of the
  clippy configuration, walks the project, keeps the cache on disk, runs `rustfmt`
  and reports.
- `tests/` exercises the library on concrete inputs.
