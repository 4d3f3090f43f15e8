# ddns-rs

A DDNS client for Cloudflare: it resolves the host's public IP address from a
list of sources and keeps each configured domain's `A` or `AAAA` record
pointed at it (create, update, or leave alone).

Layout:

- `src/` — the verified library.
  - `config.rs` — the configuration, its defaults and its validation;
    the record type a domain asks for; the address-family check.
  - `error.rs` — configuration and lookup errors, with their views.
  - `ip_source.rs` — the order in which public-IP sources are asked, and how a
    source's reply is read.
  - `provider/cloudflare.rs` — the Cloudflare API calls (as plain request
    values), how their replies are read, and the create / update / no-op plan.
  - `service.rs` — a sync pass (or a print pass) as a state machine: it takes
    what the outside world answered and gives the next thing to do.
  - `text.rs` — Unicode trimming and ASCII case comparisons.
- `app/` — the program: command line, YAML loading, HTTP, logging, and the
  loop that carries out what a pass asks for.
- `tests/` — tests of the library.
