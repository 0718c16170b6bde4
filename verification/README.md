# tavla_api

The verified core of the Tavla (backgammon) game server, written in Verus.

- `src/` is the library. Its functions are verified against their
  contracts, except the few small trusted wrappers that make the calls into
  `rand`, `sha1`, `base64`, `png`, `chrono`, `validator` and the system
  clock; their doc comments say what they assume.
  - `service/game`: the match state machine (`session`), the computer
    player's next step, expired turns, quick-match decisions, the outbox
    batch plan and score deltas, live-state keys and turn clocks (kept in
    milliseconds of a monotonic clock).
  - `service/access_control`: per-client, per-user and sliding-window rate
    limits, and configured per-user limits.
  - `service/captcha`: arithmetic problems and answer options, challenge
    hashes, stored answers, the answer check and the PNG encoding.
  - `service/authentication`, `service/entity_service`: token claims, roles,
    the validation rules of the account forms, the order in which
    registrations, user creations and guest sign-ins are refused.
  - `types/http`, `utils`: the answer envelope, error keys, paging, JSON
    merging, text helpers.
- `app/` is ordinary Rust around it: serde forms of the library's types,
  locks and clocks, Redis, HTTP answers, token signing and the captcha
  drawing (floating point).
- `tests/` exercises the library on concrete values.
