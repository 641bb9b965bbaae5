# rustyline

A line editor in the manner of readline, verified with Verus.

- `src/` is the library: what every key does to the line, the cursor and the place in the
  history, which part of a long line is shown, and what is written to the terminal. It performs no
  input or output. `src/model.rs` describes the editor mathematically, the contracts of the
  commands in `src/edit.rs` and of the key handling in `src/session.rs` are stated over it, and
  `src/laws.rs` proves what holds of it as a whole. What is believed of the standard library and of
  `unicode-width` stands in `src/strings.rs`, `src/width.rs` and `src/input.rs`.
- `app/` talks to the terminal: raw mode, reading characters, writing what the library asks for.
- `tests/` runs the library.

```rust
match readline(">> ", &mut None) {
    Ok(line) => println!("Line: {:?}", line),
    Err(_) => println!("No input"),
}
```
