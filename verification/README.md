# acton_dx

The core of the Acton DX HTMX toolkit, verified with Verus.

`src/` is the library. Each module states what its functions do in
`requires`/`ensures` contracts, and the properties that span several calls
are proof functions named `law_*`:

- `ipc`: the framed wire protocol spoken over the service socket (a frame
  written for a payload reads back as that payload), correlation ids (ids
  with different sequence numbers differ), the client configuration and the
  connection retry schedule.
- `transport`, `config`, `registry`, `embedded`: configuration and its
  defaults, service endpoints and ports.
- `circuit`, `coordinator`: circuit breakers and the service coordinator's
  health bookkeeping.
- `hot_reload`: debounced file change events.
- `session`, `store`, `cookie`, `session_flow`, `extractors`: sessions,
  the in-memory session store, the session cookie (a cookie written is read
  back), and what request handlers get.
- `oauth`: OAuth2 state tokens with expiry.
- `jobs`, `rate_limit`: background job bookkeeping and rate limit counts.
- `email`, `results`: email messages, service results, file chunking.
- `cli`: the decisions of the command line tool.
- `text`, `error`, `services`, `helpers`: shared building blocks.

`app/` holds what runs around the library: the socket client, the command
line processes, the background agent tasks, the floating-point token
buckets and the embedded services runtime. `tests/` exercises the library.
