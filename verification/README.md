# wusheng-pool-client

A stratum mining client for Aleo pools.

- `src/` is the verified library: the stratum wire protocol (how messages are
  laid out as JSON-RPC requests and responses, how frames of JSON text are
  read back as messages, and how the stream is cut into newline-terminated
  frames), the subscription and
  authorization handshake, the handling of the pool's messages, the
  connection back-off, job ids, share statistics and proof rates, the
  prover's dispatch of work, the workers' share decisions, the thread-pool
  layout, and the Aleo account.
- `app/` is the program around it: command-line parsing, logging, the TCP
  connection, the writing of JSON text, the tasks and channels of the prover,
  its workers and the statistics, and the proving itself.
- `tests/` exercises the library on concrete values.
