# bdk-cli

A command line wallet on top of [bdk](https://crates.io/crates/bdk), whose decisions are verified
with Verus.

- `src/` is the library. It decides what each command does, step by step, and never does any
  input or output itself.
  - `session` – the course of a command: a `Session` says what to do next and is told what came
    of it; `session_laws` states what holds of every session.
  - `split` – how a line typed at the prompt falls into words; `split_laws` states that splitting
    gives back the arguments a line was made of.
  - `naming` – the name that a wallet is stored under; `descriptor` tells the descriptors that
    can be read for one.
  - `home` – where the files of the program are.
  - `blockchain` – which connection to a blockchain is made.
  - `render` – the text that the program answers with.
  - `opts`, `error`, `text` – the command line, failures, and characters.
- `app/` is the program around it: it parses the command line, opens databases, makes
  connections, calls bdk, reads lines and prints.
  The environment variables `BDK_CLI_FEATURES` (such as `repl,electrum,compiler`) and
  `BDK_CLI_REGTEST` (`bitcoin`, `electrum` or `esplora`) say, at compile time, what it is built
  with and which node or server it starts for itself.
- `tests/` runs the library.

What the library takes from other crates without proof (regex matching, the keys and checksums of
descriptors, names derived from them, JSON as text, the wording of errors) stands in functions
whose comments begin with the outside function's name and say under "Trusted" what is claimed of
it.
