# ibeji_samples

The logic of the Eclipse Ibeji digital twin samples, verified with Verus.

- `src/` is the verified library: endpoint discovery and matching, the
  retry policy, how the in-vehicle digital twin service's URI is found,
  DTMI topic names, the simulated signals, subscription and instance
  bookkeeping, what each provider registers, the request handlers'
  decisions, the graph consumers' walk to a seat massager, and the seat
  massager consumer's wait for answers. Calls into `serde_json`, `uuencode`,
  `rand` and `uuid` stand behind small trusted wrappers whose contracts say
  what those crates document.
- `tests/` exercises the library on concrete values.
- `app/` holds the edges around it: settings files and environment
  variables, image files, timers and channels, JSON serialization with
  serde, the command line, and the simulated battery's floating-point charge.
