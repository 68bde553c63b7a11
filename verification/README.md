# termorio

A factory orchestrator: factories register with the orchestrator over a local
socket, and the orchestrator probes each registered factory's status over a
socket of its own.

- `src/` is the verified library (Verus): message framing (`framing`), socket
  names (`naming`), the factory table in a `papaya::HashMap` (`factories`),
  the orchestrator's registration protocol (`orchestrator`), the status
  protocol and probe (`status`), the probe supervisor (`tasks`), socket error
  reporting (`sockets`), the factory's reading of its registration (`factory`),
  errors (`errors`), and properties spanning several operations (`laws`).
- `app/` holds the two programs (orchestrator and factory) that do the socket
  I/O, the serialisation with bincode and the task plumbing with tokio, and
  call the library for every decision.
- `tests/` exercises the library on concrete values.
