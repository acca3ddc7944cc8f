# open_timeline_gui

The decisions of the OpenTimeline desktop GUI, verified with Verus: how number
inputs are conformed, how dates are read from their inputs, pagination, the
flow of the games, tag inputs and their validity, the search criteria, the
counts tables, and the request/answer state of the panels and windows that
talk to the database.

- `src/` is the verified library. Each module states its behaviour in
  `requires`/`ensures` clauses over spec functions, and states the properties
  that span several calls as `law_*` proof functions.
- `tests/` runs the library on concrete values, with the real outside crates
  (`bool-tag-expr`, `tokio`).
- `app/` is the egui side: drawing, reading the keyboard and the clock, and the
  config files. It hands plain values to the library and acts on what comes
  back. `app/gui.rs` holds the main window; the rules of dates, the game
  engines, the search and the saving of new items belong to the timeline
  database and come in through the traits `DateRules`, `GameEngine`,
  `SearchBackend` and `EditStore`.

The outside calls that the library makes (`bool_tag_expr::TagComponent::from`,
`bool_tag_expr::BoolTagExpr::from`, `tokio`'s `Receiver::try_recv`, and a few
`std` functions) sit behind small trusted wrappers whose contracts say what is
assumed of them.
