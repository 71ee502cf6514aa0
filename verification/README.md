# navigator_store

The core of a durable store for agent sessions: sessions and their owners, participants and
operations, mailboxes, launches, artifacts, effects, approvals, tools, and the projections that
are rebuilt from the event journal.

The store keeps everything in a SQLite database. What it decides is separate from how it is
stored:

- `src/` is the verified library. Each function takes what was read from the database as plain
  values and says what is to be written, or which error is returned and whether the ledger keeps
  it. Every contract states the outcome exactly; laws that span several functions are public
  proof functions beside them.
- `app/` is the SQLite store itself. It opens the database, runs the transactions, turns rows and
  JSON into the values of the library and back, and writes what the library decided. Every UUID
  that it reads is taken for an identity. The statements for approvals, tools and authorized
  children are not part of it.
- `tests/` runs the library on concrete values.

## The library

| module | what it decides |
| --- | --- |
| `ids`, `identity`, `time`, `text`, `sorted` | identities, revisions, timestamps, texts, ordered sets |
| `error`, `database` | errors, their stored form, faults of the database |
| `ledger` | requests that were answered before, and conflicts between them |
| `journal` | where an event goes, and how one is read back |
| `session` | opening and closing sessions, ownership and its epochs, templates |
| `capacity` | limits, reservations, subscriptions |
| `operation` | participants, operations and their moves |
| `mailbox` | placing, leasing, settling and retiring messages |
| `launch` | launches of drivers and their evidence |
| `artifact` | publishing, deleting and erasing artifacts |
| `effect` | the effect journal and the settling of uncertain effects |
| `authority` | policies, grants, authorized children |
| `hierarchy` | what participants do to each other, cancelling subtrees |
| `approval` | asking for leave, deciding, and using what was granted |
| `tool` | registrations, providers, invocations |
| `recovery` | what is found after a restart, and what is made of it |
| `payload` | the documents that events carry |
| `projection` | views that are folded from events, their generations, and paging through them |

## Trusted calls

A few private functions call other crates; their contracts are believed, and a comment above each
says what they claim: UUID texts (`uuid`), adding milliseconds to a date (`time`), reading and
writing JSON documents (`serde_json`), and HMAC tags (`hmac` with `sha2`).
