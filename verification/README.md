# focus_task

The desktop shell of Focus Task, a four-quadrant task manager, starts a local
backend service, keeps the signed-in user in the platform credential store,
posts native notifications and saves backups through native dialogs.

`src/` is the verified library (Verus):

- `text` — trimming, searching, decimal printing, the backtick escape used in
  PowerShell scripts and the `Debug` quoting used for AppleScript strings.
- `backend` — the backend's address, health request and health judgement,
  environment, secret key handling, install decisions, readiness waiting and
  stopping.
- `startup` — the start sequence as a machine from action and outcome to the
  next action, with proved properties of its runs.
- `store` — the credential store reached through `keyring`; every operation
  is appended to a `StoreLog` (operation, key, value handed over, answer).
- `credentials` — loading, saving and clearing the signed-in user.
- `platform` — the commands run per platform and how their results are read,
  and how window and application events are handled.

`app/` is the Tauri shell that performs the I/O the library decides on.

`keyring` is built with its macOS and Windows stores; on other systems it
falls back to its in-memory mock store, which keeps nothing between entries.
