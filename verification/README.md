# hbbs_policy

The connection-authorization policy hook of a RustDesk rendezvous server
(`hbbs`), written in Verus.

- `src/` is the verified library: the policy mode and configuration checks
  (`mode.rs`, `client.rs`), the authorization request and its JSON body
  members (`request.rs`), fresh request ids (`request_id.rs`), the
  allow/deny decision on the backend's reply (`client.rs`), text handling
  (`text.rs`) and the laws of the decision and of mode parsing (`laws.rs`).
- `app/` holds the I/O around it: environment variables, the service token
  file, the HTTP exchange with the policy backend, and logging.
- `tests/` runs the library on concrete values.
