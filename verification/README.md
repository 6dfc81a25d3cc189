# codex_supervisor

The verified core of a supervised terminal session.

A *coordinator* owns the outer terminal. A *guardian* owns two direct children:
the App Server and the TUI. Both talk over one lifecycle wire of small binary
frames. This library holds everything that decides in such a session, proved
with Verus; it makes no system call. Each of its machines names the next outside
action, is told what came of it, and goes on.

## Layout

- `src/protocol/`: the wire format and its codec, deadline-bounded transfers,
  the transcript validator, and the two receivers that mint one-shot proofs.
- `src/process/`: spawn and publication, readiness, terminal control, the App
  Server's one graceful drain, the ordered shutdown of both children, retries,
  and the release of a child without a shutdown.
- `src/provider/`: admission of a session, its pinned build and launch plans, the
  App Server's socket and monitor, the exact relay, the descriptors that no
  child may hold, and teardown.
- `app/`: system calls, streams and clocks around the machines.
- `tests/`: the library driven over byte channels and a simulated system.

A function named `law_…` states a property of several functions at once. Its doc
comment says it in words.

## What is trusted

- `subtle::ConstantTimeEq` decides equality of two digests.
- `uuid` reads and writes the spellings of a UUID.
- `std::str::from_utf8` accepts exactly valid UTF-8.
- `Arc::strong_count` counts the owners of a session's lifetime, the one that
  asks among them. How many others are alive at that moment is not modelled; what
  follows from each count is proved.
