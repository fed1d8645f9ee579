# partymod

A game mod's logic as a verified library: the BPS patch format and its CRC-32
checks, the executable patcher's decisions, the input layer (keyboard and gamepad
bindings, menu keys, per-frame device state), the code patches the mod writes into
the game, and the configuration tool's settings model.

- `src/` is the library; Verus proves every function there against its contract,
  except two small trusted wrappers around std (`str::to_lowercase` in `file.rs` and
  the line written to standard output in `logger.rs`), whose contracts it takes on
  trust. Laws that span several functions are public proof functions beside them.
- `tests/` runs the library on concrete values.
- `app/` holds the command-line patcher: file reading and writing, messages and the
  key press that ends it.
