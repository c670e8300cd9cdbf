# evloop

An event loop for Linux that runs tasks which suspend themselves on file
descriptors, with its decisions verified by Verus.

- `src/` is the verified library. `EventLoop` is a state machine: it names an
  action (resume a task, register a descriptor, wait for events), is told what
  came of it, and names the next. `model` says what each step does, `laws` and
  `custody` say what holds of every run, and `script` tells a whole run at once
  for tasks whose behaviour is known, which `laws` proves the state machine to
  agree with. `setup` makes an event loop, and `generator`, `tcp`, `pipe` and
  `spawn` hold the calls by which a task suspends itself.
- `app/` performs the system calls, and runs futures as tasks.
- `tests/` drives the library with made-up tasks and events.
