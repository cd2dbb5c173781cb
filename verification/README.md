# npins (verified core)

`npins` pins the dependencies of a Nix project. This crate holds the parts of
it that decide and compute, each proved against its
contract:

- `src/opts.rs` — the command line as data: the option types of every command,
  the values that stand in for omitted arguments, the `--forge` names, the
  reading of git remote URLs, and the completions offered for pin names.
- `src/pins.rs` — the pins of a lock file, kept in name order.
- `src/pin.rs` — the pin model: what is tracked, the locked version, hashes.
- `src/import/` — turning lon and Niv lock file entries into pins.
- `src/nix.rs` — how the Nix helper programs are run and what their output
  means.
- `src/text.rs` — prefix tests, trimming, UTF-8 decoding and URL parsing.

`app/` is the program around it: the bpaf command line parsers, reading lock
files with serde, and starting the helper processes with tokio.
