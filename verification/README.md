# soma

SOMA keeps what is done in terminals and with assistants, and hands the part of it that
matters to cloud models. What a cloud model says is a draft: only evidence from the user, a
test, a tool or an observation makes it durable.

This crate holds the rules of its commands, verified with Verus. A command's decisions are
made in `src/` from plain values: flags, variables, the bytes of files, and what the store
said. `app/` reads and writes those.

- `src/capture/` takes in episodes: the marks of a shell in terminal output, payloads and
  their limits, signatures, and the edges between episodes.
- `src/cli/` holds the commands: the adapters and the spool between them, the proofs that a
  private client calls its wrapper, the context commands, and what an operator does by hand.
- `src/json.rs`, `src/text.rs`, `src/number.rs`, `src/path.rs`, `src/shell.rs` and
  `src/fingerprint.rs` are what the rules are written with.
- `src/outside.rs` holds every call into another crate, with what is believed of it.

Contracts speak of views: texts are `Seq<char>`, a JSON value is a `JsonView`, and each struct
has a view with the same fields. Functions whose names begin with `law_` state what holds of
several functions together.
