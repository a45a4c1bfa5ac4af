# clash_lib

Verified decision logic of an upstream DNS client, a bidirectional relay with
idle timeouts, and a MaxMind country database loader, written in Verus.

- `src/` is the verified library: `dns_client` (protocol names, connection
  plans, stream plans, query plans), `io` (the relay state machine and the
  combination of its two directions), `mmdb` (opening and querying the
  database, its country records, the loading state machine, download
  answers), `mmdb_format` (checks that opening a database, and looking an
  address up in it, read only inside its bytes before `maxminddb` does so), with `addr`, `error` and
  `text` as support.
- `app/` performs the input and output that the library plans: sockets and
  TLS through hickory and rustls, the relay on tokio, files and HTTP
  downloads through hyper.
- `tests/` runs the library on concrete values.
