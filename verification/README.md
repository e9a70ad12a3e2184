# mefirst

An intercepting HTTP proxy: eBPF programs redirect connections to a target address and port
to the proxy on localhost, where plugins answer chosen requests (from a file or a command,
optionally only for certain client processes or Host headers) and everything else is forwarded
to the original destination.

## Layout

- `src/` — the verified library (Verus). Every decision the proxy takes is here, with its
  contract:
  - `config` — configuration values, merging a configuration file into command-line values,
    validation;
  - `plugin` — pattern matchers, plugin configuration checks, file/command/process-aware
    plugins, the registry that picks the first plugin accepting a request, the command
    plugin's request serialization and response parsing;
  - `proxy` — routing a request to a plugin or upstream, the proxy's own replies, listen
    addresses;
  - `upstream` — upstream URLs and hop-by-hop header filtering;
  - `process` — process records, reading `/proc` tables and files, the per-socket cache;
  - `redirect` — the eBPF programs' decisions (which connections are redirected, what the
    maps hold, the ptrace hook), kernel version checks;
  - `capability`, `logging`, `error`, `headers`, `text`, `paths` — capabilities, logging
    configuration, errors, header maps, text handling, path facts.
- `tests/` — tests of the library.
- `app/` — the program: command line, file and network I/O, the HTTP server, metrics,
  logging setup and the aya-based eBPF loading, all calling into the library.
