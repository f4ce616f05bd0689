# fortuna_miner

The verified core of a multithreaded CPU miner for Fortuna on Cardano, speaking a stratum
pool protocol.

- `src/difficulty.rs`: the proof-of-work score of a hash (leading zero hex digits and the
  four digits after them), the target test, and laws on both.
- `src/nonce.rs`: the little-endian nonce counter.
- `src/hash.rs`, `src/hexcode.rs`: SHA-256 (`sha2`) and hex (`hex`) behind trusted wrappers.
- `src/worker.rs`: a mining worker: block template with the pool's extra nonce, one attempt
  per step.
- `src/json.rs`, `src/stratum.rs`: stratum messages as plain data, the requests the miner
  sends, line framing, routing of pool replies, the subscription reply, and the connection
  handshake (retry delay, subscribe timeout, authorize).
- `src/job.rs`: the job state updated by pool messages and the decision to restart workers.
- `app/main.rs`: command line, TCP connection, JSON (de)serialization, threads and logging.
