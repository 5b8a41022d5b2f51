# wrldbldr_domain

The domain model of a world builder for tabletop role-playing games —
characters, locations, regions, scenes, challenges, narrative events and
their triggers, lore, stagings and the content of character sheets — written
in Verus: each operation carries a contract that Verus proves.

## Layout

- `src/` — the verified library. Each module holds one part of the model
  with its abstract view (spec functions over `Seq`, `Map` and plain values),
  the operations with their contracts, and `law_*` proof functions that state
  properties relating several operations (read-after-write, round trips,
  monotonicity, invariants kept by every change).
- `tests/` — executable tests of the library on concrete values.
- `app/` — ordinary Rust around the library: floating-point values (held by
  the library as the bits of single-precision numbers), conversions to and
  from `chrono` date-times, the JSON form of scenes, character sheet values
  kept as JSON, and the domain error as a standard error (`thiserror`).

## Outside crates

- `uuid` makes fresh identifiers and formats them (`src/ids.rs`).
- `chrono` parses RFC 3339 date-times (`src/datetime.rs`) and converts
  instants in `app/`.
- `serde_json` values are carried by story events (`src/story_event.rs`) and
  character sheet responses; `serde` and `serde_json` serialize in `app/`.

## Names and scope

- Some operations carry other names than their natural ones because Verus
  reserves the words: `OutcomeTrigger::reveal_information` (for `reveal`),
  `StoryEvent::kind_name` (for `type_name`), and `to_text` methods where a
  type would implement `Display`.
- Not part of this library: the `World` aggregate with `WorldUpdate`,
  `TimeAdvanceResult` and game time, workflow configurations
  (`WorkflowConfiguration`), a character's mood and expression settings, and
  `StagedNpc::with_mood`. The types they rest on (game time and its
  configuration, rule-system configuration, the workflow slot and mapping
  types, moods) are not modelled here.
