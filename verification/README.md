# ai-saved-manager

A command-line tool that imports saved social-media posts (Facebook saved
posts exported by the J2Team extension), screens them, has a language model
(Ollama or an OpenAI-compatible service) summarise, tag, categorise and score
them in batches, and exports the results to JSON or SQLite.

## Layout

- `src/` — the library, verified with Verus:
  - `text.rs` — white space, trimming, searching and decimal rendering over
    the character view of strings;
  - `models.rs` — posts, analyses, datasets, export rows, and the status and
    category labels;
  - `config.rs` — the documented defaults and the checks a loaded
    configuration must pass;
  - `importer.rs` — normalising export records into posts, the SHA-1 post
    identifiers, and the import counts;
  - `processor/filter.rs` — the content rules;
  - `processor/mod.rs` — batching, the plan of a processing run, and the
    handling of a batch's replies;
  - `processor/llm_client.rs` — prompts, the framing and checking of model
    replies, error messages and the retry policy;
  - `storage.rs` — tag lists as JSON text, rows read back, database error
    recognition;
  - `cli.rs` — log levels, command vocabulary, and exit codes;
  - `clock.rs` — timestamps and fresh identifiers.
- `app/` — the program around the library: argument parsing, the
  configuration file, the SQLite database, the HTTP clients, the export
  files, and the asynchronous command handlers.
- `tests/` — tests of the library.
