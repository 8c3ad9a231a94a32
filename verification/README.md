# Valens

A value-proposition workbench: products, features, pain reliefs and gain
creators on one side; customer segments, jobs, pains and gains on the other;
link tables and strength annotations joining them; and views that show how
well a product fits a segment.

- `src/` is the verified library (Verus): the entity model, link and
  annotation editing, the editor windows' actions, graph reachability behind
  hover highlighting, fit scores, story-card ordering, the demonstration
  data, the row encoding used by the database, and the laws in `laws.rs`.
- `app/` is the desktop shell (eframe/egui and SQLite) that draws the pages,
  reads and writes the database, and hands every edit to the library.
- `tests/` exercises the library on concrete values.

Run with `--demo` to start on the demonstration portfolio.
