# fetch

A small HTTP fetch client whose decisions are verified with Verus.

A client hands requests to one background worker that it shares with its
clones. The worker gives each request a time limit and sends back a reply, and
the reply becomes a response that its caller reads, up to a size limit, until
it is over or the fetch is aborted.

- `src/` is the verified library. It never waits and never touches the network:
  it says what is to be done next, and takes in what came of it.
  - `client`: scheduling a fetch, waiting for its reply, starting and closing a
    client.
  - `worker`: what the background worker does about messages, timers and
    finished requests.
  - `response`: what a response says of itself, and reading from it.
  - `body`: reading a body that arrives in chunks.
  - `stream`, `limit`, `series`: what whole reads, and series of them, come to.
  - `abort`, `error`, `mime`, `status`, `uri`: the values that these work on.
- `app/` runs it: the thread with a tokio core and a hyper client, the channels,
  the pool, the futures, and `std::io::Read` for responses.
- `tests/` runs the library on concrete values.
