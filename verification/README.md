# gsearch

The verified core of a web-search plugin for the Anyrun launcher: it turns
typed input into search queries, reads search results out of fetched Google
result pages, and keeps the queue that serialises searches so that only the
newest pending query is searched next.

- `src/` is the verified library: `text` (character-level string helpers),
  `search` (engines, query links, result extraction), `browser_utils`
  (parsed HTML documents and browser-side decisions), `search_queue`,
  `search_thread` (browser-thread decisions and the result-wait protocol),
  `plugin` (input handling and the step function that answers launcher
  input), `bypass` (FlareSolverr requests).
- `app/` holds the plugin entry points, the browser connection, the async
  queue processor and the browser thread; it carries out the actions the
  library decides on.
- `tests/` exercise the library, including the real HTML parser.
