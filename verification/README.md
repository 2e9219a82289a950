# roosycozy

The verified core of a desktop assistant for school records and cases, with the program around it.

- `src/` is the library. Every function in it is verified by Verus against the contract in its
  header.
  - `drace/` decides what a prompt takes from the cache: the order of the segments of a prompt, the
    known prefixes and which of them are warm, the plan of a stage, the drafts that are proposed
    and how much of a draft a model accepts. `drace/laws.rs` states what holds of it as a whole.
  - `engine/` ranks the records of a case, gathers what an answer rests on, writes the prompts,
    reads the answers, renders the records, and says step by step what a chat, a review, a run of a
    model and a server of a model do next.
  - `platform/` finds the saved state of the program, and decides what an update and the runtime of
    the models need.
  - `strs.rs`, `text.rs`, `sorting.rs` and `json.rs` are the ground the rest stands on: texts as
    sequences of characters, sorting, JSON documents.
- `tests/` runs the library on concrete values.
- `app/` is the program: it performs the steps that the library asks for (files, processes, HTTP,
  the window) and computes the floating-point scores and rates.

Scores and rates are floating-point numbers, which the library does not hold. It counts what they
are made of, and orders by integer keys that the program makes of them.

What the library takes from other crates on trust is marked `external_body`, `uninterp` or
`assume_specification`, with a comment that says what is claimed: parsing JSON (serde_json) and
addresses (reqwest), SHA-256 (sha2), Base64 (base64), and a few functions of std.

The window is built for Windows and macOS. The datasets of laws and templates are read from the
resources of the program, under `legal/`.
