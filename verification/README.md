# konnektoren_core

The core of a language-learning game: challenges (multiple choice, gap
fill, sorting tables, ordering, dialogs, vocabulary, custom challenges and
more), the answers a player gives, how those answers are scored, the
history of played challenges, the commands that move a player through a
game path, and packages of custom challenges read from ZIP archives.

## Layout

- `src/` is the library, written in Verus and checked by it. Its public
  operations state what they do in `requires` / `ensures` contracts, over
  spec functions and views of the data; small helpers and constructors
  whose result is plain carry short contracts or none.
  - `task_pattern.rs`: which tasks of a challenge are played (`"5"`,
    `"1..10"`, `"5:random"`), their text form and how they select items.
  - `challenges/`: the kinds of challenge, their answers
    (`challenge_result.rs`), scoring (`challenge_type.rs`,
    `performance.rs`), playing (`challenge.rs`), the history and its
    statistics, base64 text, packages and the events a challenge page sends.
  - `game.rs`: game paths and the game state.
  - `commands/`: the commands of a game and of a challenge, and how they
    are read from messages.
  - `controller/`: what the built-in controller plugins do to the state.
- `tests/` holds the tests, run against the compiled library.
- `app/` is ordinary Rust around the library: serde copies of its types
  with `From` both ways, YAML / JSON / MessagePack, the command bus, the
  game controller and its plugin manager, and the bridge to JavaScript.
  Floating-point percentages are computed there.

Calls into `base64`, `chrono`, `rand` and `zip`, and a few `std` calls,
stand behind small trusted wrappers in `src/`, each with a doc comment
that says what its contract claims. The YAML of a package's `config.yml`
and `challenge.yml` is parsed in `app/`; how the parsed entries make a
package is decided in `src/`.
