# libconfig

Layered application configuration backed by a TOML file, with environment
overrides. Values are merged in increasing precedence: the type's defaults,
the TOML file, a bare shared-env layer (unprefixed keys named by the caller),
and the prefixed-env layer.

- `src/` is the verified library (Verus). It decides every step of a load and
  of a write and proves those decisions against their contracts:
  - `loader.rs`: the `Loader` builder, which file a loader reads, the layers it
    merges and in which order, when a corrupt file is healed and when the
    result is written back;
  - `run.rs`: a load as a state machine (phase + reported event to next phase
    + action);
  - `store.rs`: an atomic write (serialize, temporary file, rename) as a state
    machine;
  - `naming.rs`: decimal rendering and the names of temporary files, with a
    proof that distinct (process id, sequence number) pairs give distinct
    names (that each write gets its own pair rests on the per-process
    counter and the process id, which `app/` supplies);
  - `loaded.rs`: `LoadedConfig`, modification times and stale-write detection;
  - `laws.rs`: properties of every load (precedence, pure-env loaders never
    touch files, read-only loaders never write, ...);
  - `text.rs`: the lower-casing of shared env key names.
- `app/` performs what the library asks for: it resolves config directories,
  merges the layers with figment, deserializes with serde, serializes with
  toml and touches the file system. It also holds the `ConfigExt` trait, the
  functional API (`load`, `store`, `load_tracked`) and the `config!` macro.
- `tests/` exercises the library.
