# schedule configuration

A verified library for configuring systems and system sets before they are
scheduled: which sets a node belongs to, which sets it runs before or after,
its run conditions, its ambiguity exceptions, per-node and per-edge options, and
collections (possibly chained) of such configurations.

- `src/config_map.rs`: `ConfigMap`, a map holding one option value per option key,
  and its entry API.
- `src/graph.rs`: the metadata a node carries (sets, dependencies, ambiguity
  settings, chaining), run conditions and systems.
- `src/config_view.rs`: the mathematical values of configurations, the changes
  configuration makes to every node, and lemmas about them.
- `src/config.rs`: `NodeConfig`, `NodeConfigs` and their operations, and the
  conversion traits `IntoSystemConfigs` and `IntoSystemSetConfigs`.
- `src/tuples.rs`: conversions of tuples of one to twenty configurations.
- `src/laws.rs`: properties that relate the operations to one another.

Every function states its behaviour in `requires`/`ensures` and is checked by
Verus; `tests/` exercises the library on concrete values.
