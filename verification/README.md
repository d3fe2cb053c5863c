# ip_nlroute

A small rtnetlink client for IPv4 addresses, links, bridges and routes, with
an `ip`-like command line.

- `src/` is the library, verified with Verus. Each request type says, as a
  plain value, what is sent to the kernel (`request()`), and turns the
  kernel's replies, as plain values, into a response (`collect()`, `plan()`,
  `response()`). Attribute decoding goes through `neli`, interface-name
  lookups through `nix`; those calls sit behind small trusted wrappers in
  `src/mappers.rs` whose contracts say what is assumed of them.
- `app/` is the command line and the socket: it parses arguments with
  `clap`, opens the rtnetlink socket with `neli`, sends what the library
  built and hands the replies back to it.
- `tests/` runs the library on concrete replies and requests.
