# wasmer_wasi

The verified core of the WASI state of wasmer.

- `src/errors.rs`: the WASI and bus error codes, the file-system, network and
  virtual-bus error kinds, the mappings between them, and their round-trip laws.
- `src/poll.rs`: poll events, sets of them as 16-bit masks, the builder and the
  iterator over a set, and the conversion to and from platform poll flags. Its
  laws: iteration lists a set's events; a builder holds the union of the events
  added; and, for flags that are single bits at distinct positions, the
  conversion round-trips both ways. The host's own flags (from `libc`) are
  only known to be distinct and nonzero, with `POLLIN` not always one bit, so
  no round trip is stated for the host conversion.
- `src/rights.rs`: the rights masks of bus handles.
- `src/module_cache.rs`: the cache directories, freshness of cached packages,
  the two decisions of a package lookup (use the cache or fetch, then refresh,
  insert or find nothing), package names, keys and file names of compiled modules, and their compression.
- `src/port.rs`: the result code of acquiring addresses by DHCP.
- `app/`: the same functions over the outside crates' types, and the module
  cache itself (locks, thread-local map, files, wasmer engine).
