# libc-constant-deprecator

Marks constants of the `libc` crate as deprecated, from a terminal user interface.

- `src/` is the library. It scans a checkout of `libc` for constants, filters them
  by regex, keeps track of which of them are modified, rewrites the attributes in
  their source files, and holds the state of the interface. All of it is verified
  with Verus; what it takes from other crates is stated in `src/syntax.rs`
  (`syn`, `quote`, `proc-macro2`), `src/pattern.rs` (`regex`), and `src/scanner.rs`
  and `src/file_scanner.rs` (`cargo_metadata`).
- `app/` is the program around it. It runs `git`, `cargo`, the file system and the
  terminal, as the library asks for it.
- `tests/` runs the library on examples.

## Keys

| mode   | keys                                                                        |
|--------|-----------------------------------------------------------------------------|
| normal | `h` `l` move in the prompt, `k` `j` in the list; `i` inserts, `v` selects; space toggles, return searches, escape clears, shift and return writes to disk |
| insert | text goes to the prompt; return searches, escape goes back                    |
| select | `k` `j` extend the selection; space toggles it, escape goes back              |

Tab switches between the prompt and the list; control and `c` or `d` quits.
