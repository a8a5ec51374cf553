# dropworks

Client for the Dropworks game SDK REST contract (sign-in, achievements,
leaderboards, presence), with its decisions verified by Verus.

- `src/` — the verified library:
  - `client.rs` — `DropworksClient`, its session state, the requests of the
    REST contract and the judgement of replies, as steps with exact
    contracts over a model of the client (`ClientView`);
  - `abi.rs` — the decisions of the C ABI: argument checks, the recorded
    last error, the requests sent and the mapping of replies to status
    codes and out-parameters;
  - `transport.rs` — request and response values;
  - `json.rs` — JSON bodies framed around serde_json's string encoding, and
    members read back from replies;
  - `text.rs` — character-level helpers;
  - `laws.rs` — properties spanning several steps.
- `app/` — what runs around it: the async `Transport` trait and its reqwest
  implementation, the async client operations, serde forms, and the
  `extern "C"` functions.
- `tests/` — tests of the library.
