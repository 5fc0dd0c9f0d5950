# cosmonaute

The core of a documentation browser for Rust crates, verified with Verus.

- `src/text.rs`: decimal numerals, Unix path joining, substring search, lower-casing.
- `src/docset.rs`: documentation sources, import reports and errors, and case-insensitive search over the items of a set.
- `src/cargo.rs`: the `cargo` commands of an import and the reading of their answers.
- `src/import.rs`: the import as a state machine (`Importer`), its transition function `step`, and the laws proved of it.
- `src/page/`, `src/view/`: how the window's pages react to messages.
- `app/`: a console driver that runs commands and files for the importer and prints what the home page prints.
