# cluster_mgr

The task-planning core of the EloqKV cluster manager, written in Verus:
every function in `src/` carries a contract that Verus proves.

What the library decides:

- `text`: string primitives with exact specifications (splitting, trimming,
  decimal rendering, number parsing as `str::parse` does, joining,
  deduplication).
- `topology`: reading `CLUSTER NODES` output, merging the topology the
  nodes report, the checkpoint polling before a shutdown, and choosing
  failover targets.
- `rolling`: the ordered steps and rounds of a rolling upgrade or restart.
- `scale`, `scalelog`: checks on requests to add or remove transaction and
  log nodes, the resulting membership, the commands and the ordered stages
  of those operations, and the retries of the request to the log service.
- `ctrl`, `plans`: the ordered stages of start, stop, restart, removal,
  update, launch, bootstrap and configuration updates.
- `daemon`, `rclone`, `dss`, `logctl`, `txctl`, `monograph`, `monitor`,
  `proxy`: the shell commands that start, stop and probe each service, the
  control tasks built per host, and how their output is read.
- `backup`, `ini`, `group`, `misc`, `deploy`, `task`: backups and restores,
  configuration updates, the command-to-group table, the local unpacking
  of downloaded packages and smaller pieces.
- `order`: lemmas on stages picked in order from a fixed sequence.

The laws the library keeps are public proof functions whose names start
with `law_`.

`app/` holds what talks to the outside world: decoding the JSON the topology
task sends, running the loops whose steps the library decides (rolling
upgrade, monitor control, log peer requests), file access and the user
lookup.
