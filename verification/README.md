# vortex-launcher

An unofficial Linux launcher for Vortex. It downloads the Windows build and Proton on the first
run, signs in, and starts the game under a wine prefix of its own.

- `src/` is the library, verified with Verus: what the launcher decides, as functions on plain
  values. It does no I/O. What takes several steps (a job, an installation, a download) is a state
  that is told what happened and answers what to do next.
- `app/` is the program around it: the window, the command line, the network, files and processes.
  It does what the library asks for and reports back.
- `tests/` runs the library on concrete values.

| module | what it decides |
|---|---|
| `worker` | the jobs, step by step; `worker::laws` states what holds of all of them |
| `auth`, `net` | requests, what replies mean, resuming a download |
| `proton` | which builds there are, which one is used, releases, installing one |
| `game`, `studio` | which build the server has, installing it |
| `launch`, `shaders` | how the game is started, Microsoft's shader compiler |
| `config`, `session`, `storing`, `paths`, `disk` | what is kept and how, where it lies, what is on disk |
| `state`, `app`, `cli`, `desktop`, `ipc`, `logo` | what is shown, printed and registered |
| `text`, `spelling`, `sort`, `json`, `error` | what the others are written with |

The contracts rest on a few calls into other crates whose behaviour is stated, not proved:
`serde_json` (parsing), `sha2`, `png`, `dirs`, and of the standard library `String::push`,
`str::parse`, `str::to_lowercase`, `String::from_utf8_lossy`, `char::from_u32` and
`char::is_alphanumeric`. Each stands behind one small item that says what is claimed of it.
