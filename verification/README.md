# intercept

Runs a command and reports what happens to the process that executes it: that it was created,
suspended, resumed, and how it ended.

The library in `src/` decides. A run is a value that says what the system has to be asked for next,
and with what; an executor takes the answer, moves the run on and reports the event of the step, if
it has one. The crate in `app/` asks the system and hands the answers over.

- `command`: what is executed, and what the system call for it is given
- `unix`, `generic`: the runs on Unix and on any platform, and their executors
- `executor`: what executors have in common
- `event`, `error`: what is reported, and what can go wrong
- `flags`: the flags of the system calls
- `fake`: what to do in place of executing a compiler call
- `laws`: what holds of every run
- `outside`: what is taken for granted of std, chrono and nix
