# tlm

The install-or-update and launch logic of TLM, the TruckersMP launcher
manager for Linux, as a Verus-verified library, with the command-line program
around it.

- `src/` is the verified library. Each decision of a launch is a state
  machine over plain values: `launch` (check for the launcher, check the remote
  version unless the launcher is present and updates are skipped, install or
  update when needed, start the bridge, run the launcher), `install` (create
  or overwrite an installation), `bridge` (start the Discord IPC bridge).
  A machine names the work to do next; the caller does it and hands back the
  outcome. `command` describes the processes that are started, `release` the
  release to install, `aria_source` where `aria2c` comes from, `web_url` the
  URLs (parsed and resolved by the `url` parser that `reqwest` exports),
  `text` trimming, prefixes and path joining, `error` the errors and their
  messages.
- `app/` is the program: command-line arguments, and the downloads, file
  work, unpacking and processes that the machines ask for.
- `tests/` runs the library on concrete values.
