# stdio_bus

Workers for a message bus over standard input and output, verified with Verus.

A worker reads JSON-RPC messages line by line, hands each one to a handler, and writes
the response back with the session identifier of the request. The library decides; it
does no input or output. Its callers tell it what happened and are told what to do next.

## Layout

- `src/`: the library.
  - `json`, `text`, `string_map`, `string_set`: JSON documents and text.
  - `message`, `routing`, `session`: messages, the fields by which they are routed, and
    what session identifiers stand for.
  - `worker`, `transport`, `signal`, `startup`: the loop of a worker, the ways in which
    messages come and go, and the beginning and the end.
  - `rpc`, `app_server`, `mcp_model`, `mcp_server`: the app server and the MCP server.
  - `managed_server`, `mcp_proxy`: external MCP servers and the proxy in front of them.
  - `config`: the configuration of the bus.
- `tests/`: tests of the library.
- `app/`: programs around the library: arguments, pipes, processes, signals and files.

## What is stated

Each function states in its contract what it returns. Functions named `law_..` state what
holds of several functions together: that a session identifier set in a response is read
back, that requests to an external server are answered in order, that a session is started
at most once, and the like.

What `serde_json` and `rmcp` do is stated and not proved. The functions that call them are
in `json`, `text` and `mcp_model`, and each says what it takes for granted.
