# ratiomaster

A BitTorrent tracker communication tool: it parses `.torrent` files,
emulates the announces of a chosen BitTorrent client (peer ID, key, query
and header templates), simulates transfer speeds, and talks to trackers
over HTTP(S), directly or through SOCKS4, SOCKS4a, SOCKS5 or HTTP CONNECT
proxies.

## Layout

- `src/` — the library, written in Verus. Every function carries a contract
  over a mathematical model of its inputs and result, and is proved:
  BEncode decoding and encoding, torrent metadata, URL encoding, the client
  profile registry and the peer ID / key generators, announce URL and header
  templates, tracker and scrape response parsing, raw HTTP request building
  and response parsing (chunked and gzip bodies), the proxy protocol
  messages, configuration conversions, version checks, and the decisions of
  the announce engine (transfer simulation, when to announce and with which
  event, retries and failures). Calls into other crates (SHA-1, gzip,
  JSON, random numbers, paths) go through small trusted wrappers whose
  contracts say what the result is, or name it.
- `tests/` — tests of the library on concrete values.
- `app/` — the command-line program: argument handling, files, sockets,
  TLS, timers and tasks. It runs the engine loop and hands every decision to
  the library.
