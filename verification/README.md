# board_app

The data models and editor logic of a hex-board scenario editor, verified
with Verus.

- `src/models`: rows of the action, unit, level, scenario and grid tables,
  and `EditableGrid`, the in-memory grid of a scenario (abstract view:
  `GridView`), with the laws of reading and writing tiles and the
  save/load round trip of its tile records (in whatever order the records
  are read back).
- `src/pages`: the state of each editor page and what the page decides:
  form validation and resets, selection labels, and the Scenario Edit grid
  editor (click painting; drag and drop, which moves an occupant whatever
  the paint mode), stated over `ScenarioEditView`.
- `src/db`: the order of a migrations directory's files, which of them are
  migrations, and which migrations are still to apply given the recorded
  ones.
- `app/`: the Bevy/egui program around the library: drawing, input and
  SQLite access.
- `tests/`: executable tests of the library.
