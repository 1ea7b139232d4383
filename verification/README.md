# gnosis_vpn-update

Self-updater for the Gnosis VPN client. It tells whether there is an update,
and on macOS downloads, verifies and installs it, reporting its progress as one
JSON value a line.

The library under `src/` is written in Verus: what each function does is stated
in its contract and proved. It does no input or output. Where a run has to read,
write, send or wait, the library is a state machine: a `step` takes what came of
the last action and says what to do next, and its contract says exactly which
state and which action follow. The program under `app/` runs these machines.

## Modules

| Module | What it decides |
| --- | --- |
| `text` | trimming, splitting, lines and decimal numbers |
| `manifest` | manifests, channels, digests, and where manifests come from |
| `cli` | output format and channel of a command |
| `vpn_status` | whether the VPN is connected |
| `update::version` | the order of versions, and the channel of a version |
| `update::upgrade`, `update::gate` | whether a release may be installed |
| `update::check` | whether there is an update, and how that is told |
| `update::download`, `update::fetch_trace` | a download that survives lost connections |
| `update::artifact` | where an artifact goes, and whether it is the right one |
| `update::choices` | the installer's choices, and how they are kept |
| `update::installer`, `update::process` | running the installer |
| `update::loader` | the window that is up meanwhile |
| `update::self_update` | how the updater lets itself be replaced |
| `update::records`, `update::paths` | what is kept of a run, and where |
| `update::engine`, `update::engine_trace` | the run that installs an update |
| `update::apt`, `update::apt_engine`, `update::apt_trace` | the same with apt |
| `foreign` | the calls into other crates, with what is taken for granted of them |

Functions whose names start with `law_` are proofs of what holds across
functions or over whole runs: that only a verified release is installed, that a
download continues where the file ends, that a failed installation leaves the
old updater in its place.

## Building

On macOS the program carries the loader's bundle, as a zip archive that the
packaging build makes. The build takes the archive's path from the environment
variable `GNOSISVPN_LOADER_ZIP`.
