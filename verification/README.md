# aditya_crm

The Aditya Capital insurance CRM: customers, policies and their renewal
pipeline, claims, payments, leads, document extraction, staff messaging,
reminders, a rule-driven workflow engine and reports, served over HTTP with
MongoDB storage.

## Layout

- `src/` is the verified library (Verus). It holds the CRM's rules: who may
  see which records (`visibility`), how a renewal may move and what a move
  writes (`renewal`), which reminders a scan sends (`reminders`), when a
  workflow rule fires and what each action amounts to (`workflow`,
  `template`), report periods and groupings (`reports`, `grouping`,
  `dashboard`), and the request checks and record builders of every
  resource (`policies`, `records`, `customers`, `staff`, `messages`,
  `documents`, `views`, `suggestions`, `notifications`, `activities`).
  Queries are built as `filter::Filter` values whose meaning is stated in
  `filter`; calendar arithmetic lives in `dates`, ids in `oid`.
- `app/` is the server around it: configuration, the database driver,
  tokens and password hashes, the HTTP routes, live WebSocket delivery, the
  background scans, and the serde forms of the library's types. Money
  amounts are summed and ordered there, as floating point.
- `tests/` exercises the library on concrete values.

Verification: `verus` on `src/lib.rs`; every function in `src/` carries its
contract, and the laws the library promises are public proof functions
(`lemma_*`).
