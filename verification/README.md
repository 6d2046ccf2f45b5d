# alice

An event-driven agent engine whose library is specified with contracts and proved to meet them.

Events (user input, streamed model output, tool results, hooks) pass through
a middleware pipeline and are routed by type to systems. Systems are pure
functions from a read-only snapshot of the world to effects; the effect
executor applies those effects to the world, to an event sink and to the
abort manager, runs tools through the tool scheduler, and hands model calls
and rendering back to the program that drives it.

Layout:

- `src/` — the verified library: events and effects, the world and its
  components, the systems, the event bus, middleware, system registry, tool
  scheduler, effect executor, the Anthropic provider's settings and request
  body, the decoder of the Anthropic server-sent event stream, and the
  computing parts of the built-in tools (their definitions and argument
  schemas, path resolution inside the project root, line selection, text
  replacement, output formatting and truncation, sorting of glob matches).
- `tests/` — tests of the library on concrete values.
- `app/` — the program: the streaming HTTP exchange with the Anthropic API,
  the async driver of the executor, and the file system and process work of
  the tools.
