# sol_to_uml

Turns Solidity sources into UML diagrams by running the `sol2uml` tool, and
serves that over HTTP.

- `src/` is the verified library: which diagram kinds a request selects
  (`response`, `solidity_types`), how source paths are checked and how the
  outcome of writing them is judged (`internal`, `handlers`), the `sol2uml`
  command lines, the course of a visualization and of an answer of the UML
  endpoints as state machines (`jobs`, `handlers`), how request sources are
  collected into a map keyed by path (`solidity_types`),
  request routing (`routes`), request counting (`metrics`), and the small
  facts taken from the standard library (`platform`).
- `app/` is the service around it: configuration, the HTTP servers, the
  temporary directories, file writes and the `sol2uml` process.
- `tests/` runs the library on concrete requests.
