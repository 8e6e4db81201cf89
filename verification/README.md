# alglobo

A group of nodes that processes travel transactions (a bank payment, a
flight and a hotel booking that must succeed together). One node leads: it
reads the input transactions, asks the three participants to prepare each
one, and broadcasts the outcome to the replicas, which record it in their
commit and rollback logs. When the leader stops answering, the replicas
elect a new one with the bully rule (the lowest identifier wins), and the
new leader resumes the input where the logs show processing stopped.

## Layout

- `src/` — the verified library (Verus): message types, peer records and
  membership changes, message dispatch, election and leader liveness,
  resumption after failover, the commit/rollback decisions, the
  participants' answers, line framing and parsing, and run statistics.
- `app/` — the program around it: sockets, threads, actors, files, the JSON
  encoding (serde copies of the library's message types), and `main`.
- `tests/` — tests of the library.
