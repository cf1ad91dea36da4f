# volsync_webui

A web UI for VolSync backups and restores on Kubernetes: an HTTP service that
lists ReplicationSources, lists restic snapshots, starts manual backups and
restores, and serves a browser dashboard.

The decisions of the service are a library verified with Verus:

- `src/` — the verified library. The backup, restore and snapshot-listing
  workflows are state machines (`backup`, `restore`, `snapshots`, over the
  vocabulary of `workflow`): each step takes what came of the last action and
  returns the next one, with a contract that pins the step down and public
  proof functions (`law_*`) for the properties that span steps. Around them:
  the retry policy of API calls (`request`), the task table that keeps
  backups and restores of one application apart (`tasks`), the reading of
  API answers (`inventory`, `json`), request paths and bodies (`paths`,
  `payloads`), settings (`config`), the permission probes (`rbac`), static
  file selection (`statics`), and the dashboard's texts and addresses
  (`client`).
- `tests/` — tests on concrete values, run against the compiled library.
- `app/` — the program: the axum service, the reqwest connection that
  performs what the workflows ask for, and the yew dashboard.
