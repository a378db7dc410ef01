# bb_core

Verified core of a save-file editor.

- `src/resources.rs`: a set-once registry of named in-memory resources, with
  lookups that find the first entry of a name.
- `src/file.rs`: the bytes of a loaded save file and its flag reads (a model
  of the save file as far as flags go).
- `src/bosses.rs`: boss records whose flags are filled in from the file.
- `src/commands.rs`: the command names of the front end and the map id field
  written on a teleport.
- `src/save.rs`: the articles of a save, filed by type, and their refiling
  after a transformation.
- `src/handler.rs`: the command handler's decisions on a loaded save.
- `src/json.rs`: parsing of the embedded JSON tables.
- `app/`: the process-wide registry, the disk fallback, JSON loading of the
  boss list, and the browser entry points (`init`, `getVersion`, `invoke`),
  which decode arguments, call the handler and encode answers. The edits made
  by the save-file model itself (reading a save, articles, upgrades,
  appearance, name, position) are not part of this crate.
