# referral_code_role

The rules of a Discord role plugin that grants a role to members who redeem a code,
written in Verus with their contracts proved.

- `src/` is the verified library: code generation and normalization (`code_gen`),
  code-group checks (`batch_rules`), the redemption scan and its rate limits
  (`redeem`), role-link qualification and the sync plans (`condition`, `sync`),
  the background sweeps (`tasks`), the dashboard schema (`schema`), the served pages
  and links (`pages`, `templates`), decimal numbers (`decimal`) and characters
  (`text`). The calls into `rand`, `sha2`, `hex`, `urlencoding` and `qrcode` stand in
  `outside`, each behind a trusted item whose contract says what the crate's source
  shows.
- `app/` is the web service around it: the axum routes, the PostgreSQL queries, the
  HTTP clients and the worker loops. It hands the library plain values and acts on
  the steps and plans the library returns.
- `tests/` runs the library on concrete values.
