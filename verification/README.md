# promptnotes

The note capture core of a desktop note-taking app, verified with Verus.

- `src/types/` — value objects (timestamp, note id, tag, tag set, note body,
  body hash) and the `Note` aggregate, each with its invariant.
- `src/slices/` — one module per use case (create, auto-save, flush, assign
  tag, remove tag, copy body, delete to trash, recreate), each with its
  command, errors, use case and the answers sent to the user interface;
  `create_note::infrastructure` holds the `.md` file format in both
  directions.
- `src/adapters/` — the undo log of deleted notes (per-entry expiry) and the
  layout of the in-app trash.
- `src/ports.rs`, `src/events.rs` — what the use cases drive and publish.
- `app/` — the desktop shell: file-system, clock and clipboard adapters,
  serialized answers and the commands.

The tests under `tests/` exercise the library with in-memory fakes of the
ports.
