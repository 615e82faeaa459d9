# whoah

Tooling for running an Oxide control plane on commodity hardware: it
provisions a Helios VM on Proxmox, sets up access, caches and the OS for the
build, follows the build, reports on a running deployment and recovers it
after a reboot.

The library (`src/`) is verified with Verus. Every function states its
behaviour in `requires`/`ensures` over mathematical models (`Seq`, `Set`,
`Map`, spec functions), and the properties that span several calls are
stated and proved as `law_*` proof functions.

## Layout

- `src/text.rs` — the string model and its executable counterparts
  (splitting, trimming, number parsing and printing).
- `src/parse/` — parsers for command output (`zpool`, `zoneadm`, `svcs`,
  `dladm`, disks) and for build progress (cargo, pkg, omicron-package,
  xtask downloads).
- `src/config.rs`, `src/loader.rs`, `src/editor.rs`, `src/init.rs`,
  `src/import.rs`, `src/discover.rs` — the configuration model, choosing a
  deployment, editing a field of a configuration or hypervisor file and
  renaming a deployment, the setup wizard and importing from a host;
  `src/document.rs` holds the format-keeping TOML document (`toml_edit`)
  that the editor walks, modelled as a tree of key paths (formatting is not
  modelled).
- `src/pipeline.rs`, `src/monitor.rs`, `src/demo.rs` — the build pipeline
  and the build screen's bookkeeping.
- `src/provision.rs`, `src/access.rs`, `src/cache_setup.rs`,
  `src/os_setup.rs` — the build phases as state machines: each step takes
  what the last action gave and answers with the events to report and the
  next action.
- `src/watchdog.rs` — the zone watchdog's rules and its watch loop, also a
  state machine.
- `src/proxmox.rs`, `src/nexus.rs`, `src/git.rs`, `src/pkg_cache.rs`,
  `src/deploy.rs` — judging what the hypervisor, Nexus, GitHub and the
  hosts answer, and the commands sent to them.
- `src/status.rs`, `src/recover.rs` — the status report and the recovery
  sequence.
- `src/dashboard.rs`, `src/cli.rs`, `src/action.rs` — key routing, screens
  and command-line modes.
- `src/ssh.rs`, `src/direct.rs`, `src/channel.rs`, `src/console.rs` — the
  session bookkeeping and the text side of SSH, the serial console and
  command logs.

`app/` is the program around the library: argument parsing, files under
`~/.whoah`, running commands over the system `ssh`, the serial console,
netcat and docker, and the loops that drive the library's state machines.

`tests/` holds the tests, run against the compiled library.
