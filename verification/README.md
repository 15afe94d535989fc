# page

The rules behind the YRAL web pages, written in Verus and proved against their
contracts: upload form validation, the token creation form, the pump-and-dump
game's bet counting and scoring, the video feed's queues, wallet and token
helpers, and the links the pages build.

- `src/` is the verified library. Each module states its rules as spec
  functions and proves the executable code against them; the few calls into
  `candid`, `priority-queue`, `urlencoding`, `rand` and std that have no
  specification of their own go through small trusted wrappers, each with a
  doc comment saying what it claims.
- `tests/` runs the library on concrete values, and compares it with std and
  the outside crates where they compute the same thing.
- `app/` holds the edges: conversions to `candid::Principal`, the JSON forms of
  the game server's and the upload service's messages, and the computations
  that need floating point.
