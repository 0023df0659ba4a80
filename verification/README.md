# alani_docs

Documentation contracts for the Alani MVK: ADR records and a fixed-capacity
ADR index, markdown lint findings and a fixed-capacity lint report, render
requests and template metadata, and Mermaid diagram assets and links.

The crate is written in Verus. Every validator is specified by a spec
function over the UTF-8 bytes of its string fields (`validation()` on each
type, `title_check`, `label_check`, `path_check`), and each executable
function is proved to return exactly that outcome.
The Mermaid check trims leading Unicode `White_Space` characters, whose list
is written out in `diagrams::white_space`.

Layout:

- `src/lib.rs`: errors, document kinds and statuses, the document control
  block, the catalog, and the title, label and path validators.
- `src/text.rs`: byte-level `starts_with` / `contains` with their specs.
- `src/adr.rs`: ADR statuses, records and `AdrIndex` (at most `N` valid
  records with distinct ids), with laws on lookups and counts.
- `src/lint.rs`: lint codes, findings, `LintReport` and `lint_markdown`.
- `src/render.rs`: render options, requests, rendered documents, templates.
- `src/diagrams.rs`: diagram assets and links, Mermaid preamble check.
- `tests/`: scenario tests run against the compiled library.
