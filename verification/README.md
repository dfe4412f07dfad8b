# crustchan

The core of a small image board API, verified with Verus.

`src/` is the library. Its own functions carry contracts that Verus proves. The calls into
outside crates sit in small trusted wrappers in `codec`, `hashing`, `clock`, `imaging` and
`signing`,
whose contracts state what the crates' sources show and are believed, not proved:

- `auth` — session tokens: claims, their 88-byte and base64 forms, signing, the expiry and
  signature check, the cookie check, the login decision on the password verifier's verdict,
  and the user id a token carries for an account.
- `signing` — Ed25519 key pairs held as bytes; signing and checking are done by
  `ed25519-dalek`.
- `codec`, `hashing`, `clock` — the calls into `base64`, `serde_json`, `bytes`,
  `rust-crypto`, `chrono` and `uuid`, each with the contract the crate's source supports.
- `imaging` — the pixel size of an uploaded image, read from its header by `image`.
- `encoding` — big-endian and decimal encodings of integers.
- `models` — posts, admin accounts, change events of the post table, and the stored form of
  a post.
- `handlers` — how a submitted form (and an uploaded image's size) becomes a post, the fixed answers, and the answer to a
  login.
- `rejections`, `response` — the refusals and the replies they get.
- `dynamodb` — the queries and scans the server runs against its tables.

`app/` is the web server around it: warp routes, DynamoDB access, files, password hashing
with `argonautica`, and the serde forms of the records.

`tests/` exercises the library on concrete values.
