# oteryn_game_server — verified admission and reconnect authority

The admission foundation of the game server: which connection controls a
GameSession, how a lost controller is replaced, and how that decision is made
durable. Every function in `src/` is verified with Verus against a contract
stated over mathematical views of its types.

Layout of `src/`:

- `ids`, `bytes`, `text` — identifiers, fixed-width encodings and the text
  forms that durable records accept.
- `admission` — the process-local admission authority of one GameSession:
  fresh admission, PREPARE/COMMIT of a reconnect, control loss, termination,
  runtime-scope ownership, all driven by a reconnect attempt journal. Each
  authority keeps a ghost log of every request it hands its journal and of
  every answer the journal returned; its contracts state both logs exactly and
  compute each outcome from the logged answers.
- `journal` — the journal's answers by value, and the answers an operation's
  requests receive.
- `facade` — the public authority that reconciles every reconnect step with
  one atomic durable read of the session and the attempt.
- `durability`, `budget`, `flows` — reconnect durability records, per-epoch
  attempt budgets and the PREPARE/COMMIT/reconciliation flows (V1 and
  budgeted V2).
- `control_loss` — durable control loss decided by the owning runtime.
- `complete_operation`, `complete_reconnect`, `post_grace_operation`,
  `post_grace` — the complete-reconnect and post-grace recovery writes: the
  historical and current-authority checks of an operation, its write effect,
  the phases and requests of each flow, the comparison of a durable report
  with the flow's own operation, and the adoption fence. Only the answers of
  foundation helpers outside this crate (resource bounds, claim consistency,
  credential audit, source trust) are taken as values.
- `fresh_evidence`, `publication` — owning-source publication of admission
  guards and owner-prepared claim transitions.
- `laws`, `recovery_laws`, `publication_laws`, `complete_reconnect_laws`,
  `post_grace_laws` — properties that span several
  operations, stated and proved as proof functions.

`tests/` holds the scenarios, run against the compiled library.
