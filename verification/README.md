# apple_account

Signing in to an Apple account, with the decisions verified by Verus.

The library in `src/` holds what a sign-in decides and computes:

- `login`: the sign-in as a machine. It says what to do next, is told what came of it, and gives up
  after fifteen rounds.
- `exchange`: the password proofs that client and server show each other, and the account data that
  the server sends.
- `sms`: codes by text message, and what the service's replies mean.
- `token`: tokens for applications.
- `account`: the account itself, and what can be read from its data.
- `privacy`: addresses in the log.
- `plist_tree`, `json_tree`: property lists and JSON documents as plain values.
- `xml_dates`: finds dates beyond the year 9999 before a document is read.
- `crypto`: the calls into the cryptographic crates, each with the contract that is relied on.
- `text`, `types`, `error`: small text operations, the values that are passed around, and the errors.
- `laws`, `run_laws`: what holds of the library as a whole, and of a sign-in from its start to its
  end, proved from the contracts.

`app/` runs the machine over the network. It is ordinary Rust: the requests, the user callback, the
serialised forms of the types, and the log.
