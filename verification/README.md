# red4ext-rs (verified core)

Bindings for writing RED4ext plugins for Cyberpunk 2077 in Rust, built
around a library whose logic is proved correct with Verus.

## Layout

- `src/` — the verified library:
  - `hash`, `cname`: 64- and 32-bit FNV-1a hashes of byte strings, and the
    `CName` names the game's RTTI uses.
  - `res`: resource paths (`ResourcePath`, `ResRef`, `ResourcePathBuilder`):
    quote stripping, separator and case normalisation, canonicity checks and
    hashing, with proofs that the result depends neither on which separator
    is used nor on the case of ASCII letters. These rules are the library's
    own model of how the game treats paths, drawn from the documented
    examples; the game's own implementation is not part of this project.
  - `conv`, `interop`: the game's representations of Rust values and the
    names of their types (`array:…`, `handle:…`, mangled names).
  - `invocable`: checks made before a game function is called (and the
    call itself, which runs only once the checks pass), the error texts,
    the type names under which native functions are registered, and the
    metadata and flags of exported global functions and methods.
  - `mangle`: the names under which Rust declarations find scripted and
    native game functions (PascalCase conversion through `heck`), and the
    checks that refuse declarations the bindings cannot forward.
  - `types`, `downcast`, `class`, `export`, `plugin`, `rtti`: arrays, script
    object references with their reference counts, variants, colours,
    versions, state listeners, hooks, export lists and class exports.
  - `text`: decimal notation, UTF-8 validation, and the cutting of messages
    at NUL bytes before they are handed to the game as C strings.
- `app/` — the parts that talk to the plugin loader: its logging tables,
  a `tracing` writer, error types with `std::error::Error`, and plugin
  metadata with wide-string names.
- `tests/` — tests of the library.

The game's memory is not reachable from the library: addresses are held as
integers, and what the game computes (type lookups, allocation) is passed in
by the caller.
