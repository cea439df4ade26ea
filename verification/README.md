# dsh_desktop

The verified core of a desktop launcher for the DeepSeek Harness (`dsh`): it
checks for Node.js and `dsh`, installs or updates `dsh` through npm, starts
the local DSH web service on 127.0.0.1 and reports its progress as a
snapshot that the window shows.

- `src/` is the library, verified with Verus:
  - `text`: trimming, words, version normalisation, the local URL that DSH
    announces and port numbers;
  - `version`: the order of version numbers (semantic-versioning
    precedence: numeric core parts, pre-releases before their release);
  - `messages`: the commands the launcher runs and the texts it shows;
  - `snapshot`: the snapshot and its model;
  - `state`: the shared state and the operations on it, guarded by
    generations;
  - `command`: what the launcher makes of a command's output;
  - `worker`: the launch and update workers as state machines (a launch
    that finds a newer `dsh` waits for the user to update or skip);
  - `process`: the steps taken while npm or the DSH server runs;
  - `laws`: properties that hold across the operations.
- `app/` is the Tauri host: window commands, threads, processes, files and
  sockets. It drives the state machines of the library.
- `tests/` runs the library on concrete values.
