# dojo_uniffi

Blocking bindings over the Torii indexer client, split in two:

- `src/` — the verified library (Verus): the error reported for each kind of
  failed request (`outcome`), hex parsing of field elements and token ids
  (`hex`, `field_element`, `token_id`), the subscription registry that hands
  out ids and cancels subscriptions (`registry`, `subscription`), and the rule
  by which an update stream is forwarded to a callback (`stream`).
- `app/` — the client itself: the tokio runtime, the network calls, and the
  tasks that poll update streams, each step decided by the library.
- `tests/` — tests of the library on concrete values.
