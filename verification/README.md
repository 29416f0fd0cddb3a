# edustell

The rules of an education savings platform, written in Verus and proved
against their contracts: parents save for a child in vaults, contributors pay
into them, schools are paid out for milestones, donors fund scholarship pools,
and every step leaves an audit record.

## Layout

- `src/` — the verified library.
  - `text`, `json`, `shared`, `status`, `records`: text helpers, a JSON value
    with redaction, money and currencies, the status vocabularies with their
    text forms, and the stored records.
  - `contributions`, `payouts`, `scholarships`: access and transition rules.
  - `ledger`: the balance arithmetic that storage applies when a contribution
    settles, a payout moves or a pool is funded and drawn.
  - `scholarship_services`, `savings`, `schools`, `kyc`, `credentials`,
    `notifications`, `auth`: what each service decides from the records it is
    given — the record to store, its audit entry, or the refusal.
  - `audit`: audit events, request context and redaction of stored metadata.
  - `blockchain`, `onchain`: the Stellar adapter in stub mode, provider error
    mapping, and the decisions around submitting and reconciling
    contributions on chain.
  - `platform`, `infra`: calls into `uuid`, `chrono`, `sha2` and `argon2`,
    each behind a small trusted wrapper, and the token claims.
- `tests/` — scenarios on concrete values.
- `app/` — the asynchronous workflows around the library: storage and
  network ports, an in-memory store whose workflow operations apply the
  `ledger` arithmetic, JSON and token encoding, and the request-scoped audit
  context.
