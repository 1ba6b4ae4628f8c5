# codex

The decisions of the Codex command line tool as a verified library, written in
Rust with Verus contracts.

- `src/` is the library. It performs no input or output. Where a decision depends
  on the outside world it is a small state machine: the library says what is to
  be done next, and is told what came of it.
  - `arg0`, `dotenv`, `path_entry`: what an executable does when it starts.
  - `app`, `app_event`, `key`, `styled`: the application on the terminal;
    `app_laws` states what holds of a whole run of it.
  - `conversation_manager`, `history`, `agent`: conversations with the agent.
  - `protocol`: the values that travel between these.
  - `chars`: operations on plain text.
- `tests/` runs the library on concrete values.
- `app/` is the ordinary Rust around the library: files, the environment, threads,
  the terminal and the agent.

Public proof functions whose names begin with `law_` state what the library
promises over several calls.
