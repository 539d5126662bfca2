# wincs

Building blocks for a sync engine on the Windows Cloud Filter API, with their
behaviour stated in contracts and proved with Verus.

- `src/` is the verified library. It holds what a sync engine decides and
  computes: the platform's status codes, flags and enumerations, the
  parameters of every operation sent to the platform (the tickets of the
  callbacks and the commands), the decoding of the information blocks the
  platform fills (placeholder and sync root information, directory change
  buffers), sync root identifiers and registrations, requests, keys, error
  reports, and the steps of the watcher that reports changed attributes in a
  sync root. Its public proof functions state the laws the library keeps, such
  as codes that read back to what was written and sync root ids whose
  components come back out of the id they were built into.
- `app/` is the Windows side: handles, `CfExecute`, connections and their
  callback trampolines, the watcher's thread and overlapped reads,
  registration through the Windows Runtime. It hands
  the library plain values and executes what the library builds. It exists on
  Windows only.
- `tests/` checks the library on concrete values. Where a test compares
  the library with the platform's constants, it uses those values written
  out as literals: the Windows bindings are not available off Windows.
