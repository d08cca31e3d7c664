# auto_gippity

A team of language-model agents that turns a user's request into a backend
web server: a project manager restates the request, a solution architect
decides the project's features and checks the external URLs it needs, and a
backend engineer writes, builds and tests the server.

- `src/` is the verified library (Verus). Each agent is a state machine: its
  `step` takes the event that answers its last request and returns the next
  request, with a contract that equals a spec function (`backend_next`,
  `architect_next`, `junior_next`). Laws about whole runs are proof
  functions beside those models. Prompt construction, reply handling,
  answer parsing and route/URL filtering are verified functions.
- `app/` is the program: terminal I/O, files, processes, HTTP calls and the
  calls to the model, driving the library's state machines.
- `tests/` exercises the library on concrete values.
