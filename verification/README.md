# htmlarc_dom

A compact HTML document model with a CSS selector engine, written in Verus: the
executable code carries `requires`/`ensures` contracts and Verus proves it meets them.

## Layout

- `src/css` — the selector language: a character cursor, the patterns (attribute names,
  operators, values, ordinals, quoted strings, text patterns), the selectors built from
  them, their errors and diagnostics, and matching against a document. `parse_css` is
  proved to give exactly `spec_parse_css`, and selection to give exactly the elements that
  match, in document order.
- `src/dom` — the document: node records packed in a byte blob with 2- or 3-byte links
  (`nodes`), what each node holds (`document`), walks (`nav`), edits that keep the
  document well formed (`edit`), and rebuilding in document order (`rebuild`): whenever
  the rebuilt document has room for one more node, it is proved to write out the same
  HTML and to hold one copy of each node the old root reaches, in document order.
- `src/html_doc.rs` — reading HTML into a document; `src/fmt.rs` — writing it out.
- `src/element.rs` — an element handle with navigation, accessors and selection.
- `src/entities.rs`, `src/text.rs`, `src/svg_case.rs` — character references, text
  helpers, and the SVG names that keep their capitals when written out.
- `app/` — ordinary Rust around the library: error types for `std::error::Error`, and a
  `RefCell`-shared document.
- `tests/` — the tests, run against the compiled library.
