# stubborn_io

I/O items that reconnect by themselves when their connection is lost, so that the code that uses
them need not care about a temporary network failure.

- `src/` holds the decisions, verified with Verus: when a connection counts as lost, which attempts
  are made to re-establish it and after which delays, when it is given up, and what each read,
  write, flush and shutdown is answered in the meantime. `laws.rs` and `connect_laws.rs` state what
  holds across operations.
- `app/` drives a connection over Tokio: it polls, waits, wakes and logs.
- `tests/` runs the decisions on concrete values.
