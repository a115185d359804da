# tk_http

HTTP/1.0 and HTTP/1.1 building blocks for servers and clients, written in
Verus. The functions in `src/` carry contracts that the verifier proves,
except the small wrappers around calls into `netbuf`, `httparse`, `url` and
`std` (in `buf.rs`, `raw_parse.rs`, `text.rs`, `time.rs` and two in
`client/buffered.rs` and `server/buffered.rs`), whose contracts are assumed
from those crates' sources and documentation.

## Layout

- `src/enums`: versions, status codes, methods and well-known headers.
- `src/headers.rs`: classification of header values (`close`, `chunked`,
  `100-continue`).
- `src/base_serializer.rs`: the state machine that writes a message (status
  or request line, headers, body) into an output buffer, and refuses what
  would make the message ambiguous (a second body length, line breaks in
  headers, a body where the status forbids one).
- `src/chunked.rs`, `src/body_parser.rs`: decoding a chunked body in place
  and tracking how much of a body has arrived.
- `src/server`: request heads (request-target, host, body length,
  keep-alive), configuration, receive modes, the decisions of the connection
  handler and its pipeline of requests in flight (bounded, first in first
  out), buffered requests and a default error page.
- `src/client`: response heads, configuration, the decisions of the
  connection handler, and a buffered `GET` request.
- `src/serve`, `src/response.rs`, `src/simple_error_page.rs`: writing a
  response through a response writer or as a prepared head.
- `src/buf.rs`, `src/raw_parse.rs`, `src/text.rs`, `src/time.rs`: the calls
  into `netbuf`, `httparse` and `std` that the rest relies on, each with the
  contract it is trusted to meet.
- `app/`: the connection handlers that run on sockets, futures and timers,
  driven by the decisions of the library.
- `tests/`: tests on concrete values.
