# twm_core

A Tailwind class-merge engine that derives its conflict groups from the CSS a
design system generates, written in Verus: every function of the library
carries a contract over a mathematical model, and the laws of the merge are
proved.

Layout:

- `src/text.rs` — strings as UTF-8 bytes, joining, trimming, word splitting.
- `src/values.rs` — the value validators (`<length>`, `[label:value]`, ...).
- `src/candidate.rs` — parsing a class into modifiers, important flag, base
  and postfix; sorting modifiers (laws: a permutation that keeps anchors,
  indifferent to the order of plain modifiers, idempotent; parsing under a
  prefix, and rebuilding a class from its parts).
- `src/css.rs`, `src/theme.rs` — the minimal CSS reader (`@theme`,
  `@utility`, `@variant`) and the theme with its spacing scale.
- `src/families.rs`, `src/utility.rs` — CSS property to conflict family,
  the utility catalog and class resolution (laws: later rules only extend the
  catalog, its static utilities win, each utility is named once, a leading
  `-` changes nothing, `[prop:value]` gets a family per property).
- `src/trie.rs` — the prefix trie over the utility names that resolution
  walks once per candidate; its lookup is proved to find the exact static
  name, else the fitting wildcard with the longest prefix.
- `src/config.rs` — tailwind-merge plugin configs read from JSON.
- `src/conflict.rs` — the conflict table of a project's classes and plugin
  edges (laws: every key conflicts with its own family and its edge targets
  are known, family names are distinct, every resolvable class is entered,
  per-family conflict sets cover the keys).
- `src/merge.rs` — `tw_merge` and `tw_join` (laws: order kept, last class
  kept, external and unknown classes kept, the later class wins, merging is
  idempotent, empty values are skipped).
- `src/patterns.rs` — the pattern tables of a whole design system (laws:
  every utility with alternatives listed once and in pattern order,
  alternatives name their families, item codes mean their items, conflict
  sets distinct, ascending and exactly the families' ids, per-family sets
  cover them and name families of the table).
- `src/scan.rs` — scanned candidates and line/column positions.
- `app/` — the `twm-gen` command line around the library: argument
  handling, file walking, candidate extraction with `tailwindcss-oxide`,
  and the `--check` report.
- `tests/` — scenario tests, run against the compiled library.
