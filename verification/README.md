# ghdump

`ghdump` exports a GitHub issue, pull request, or discussion through MiniJinja
templates. This crate is the verified core of the tool, written in Verus.

## Layout

- `src/` — the library, every function verified:
  - `cli.rs`: the command line and the resolution of a GitHub URL to a resource.
  - `cache.rs`: cache configuration, credential scopes and cache keys (SHA-256).
  - `model.rs`: the exported document and its parts.
  - `text.rs`: decimal formatting and parsing, trimming, lexicographic order.
  - `github/`: the REST and GraphQL types and everything the export decides from the
    responses: conversions, reaction grouping, review threads, timeline entries, checks,
    metadata, enrichment, request URLs, pagination and cache plans, and the assembly of
    the documents.
  - `template.rs`, `template/document.rs`: the context that templates see.
- `tests/` — tests of the library.
- `app/` — the program around it: command-line parsing, HTTP requests, cache files,
  JSON decoding and template rendering.
