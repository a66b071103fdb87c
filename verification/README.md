# iroh-h3

HTTP/3 over [iroh](https://docs.rs/iroh) peer-to-peer QUIC connections, with a client whose requests
can be cancelled.

`src/` is the library, verified with Verus. It never waits: each operation that needs the network is
a small machine that says what to do next and takes back what came of it.

| Module | What it decides |
| --- | --- |
| `codes` | which error codes and stream identifiers go on the wire |
| `stream_error` | how failures of a connection or stream are reported to HTTP/3 |
| `recv_stream`, `send_stream`, `bidi_stream` | how a stream is read, written, stopped and reset |
| `connection` | how streams are accepted and opened |
| `body` | what a body is, and how it is turned into bytes or a stream |
| `cancel::state` | what a request, its response body and its cancel handles share |
| `cancel::pending` | how a request proceeds to its response |
| `cancel::bytes_stream`, `cancel::legacy` | how a response body is read |
| `smart_timeout` | which requests get a timeout |
| `buffer` | what is relied on of the byte buffers of other crates |

The modules named `*_laws`, and the proof functions named `law_*`, state what holds over whole
histories: that each direction of a request stream is stopped at most once, that a reader learns of
a cancellation at most once, that chunks arrive unchanged and in order.

`app/` is ordinary Rust around the library: the futures, streams and locks, and the traits of `h3`
and `http-body` on top of it. `tests/` runs the library.
