# lightpub

The core of lightpub, a small ActivityPub server, as a library verified with
Verus: what the server decides, renders and parses, with contracts that state
what each function returns; where a result comes from an outside crate, chance
or the clock, the contract says what holds of it.

- `src/` — the verified library. `signature` and `signing` handle HTTP
  Signatures (reading the `Signature` header, building the signed message,
  signing outgoing requests and checking incoming ones); `privacy`,
  `policy`, `render`, `inbox`, `delivery` and `users` decide who sees a post,
  how posts are addressed and delivered, and what incoming activities ask
  for; `ids`, `user_spec`, `api`, `handlers` and `remote` name users and
  posts, read requests and build answers; `domain` and `application` hold the
  domain model (users, posts, follows, tokens). `ext` holds the trusted
  wrappers around the outside crates (uuid, bcrypt, urlencoding, rand,
  scraper, linked-hash-map, base64, chrono, rsa).
- `tests/` — tests of the library on concrete values.
- `app/` — the server process: it reads the YAML configuration and answers
  the NodeInfo and host-meta discovery endpoints over plain TCP.
