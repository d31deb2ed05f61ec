# superposition_service

Helpers and experiment decisions of a configuration service, verified with Verus.

- `src/` is the verified library. Pure helpers (dimensions, tags, headers, validation texts, host
  names, lists) are functions with exact contracts; of more headers than surely fit into a header
  map, the contract says what is built if they do. Endpoints that talk to a database or another
  service are machines: a function from a state and an event to the next state and an action.
- `app/` performs the actions: it reads the environment, calls the database and other services,
  and turns requests and rows into the library's types and back.
- `tests/` runs the library on concrete values.
