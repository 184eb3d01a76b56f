# desktop_notify

A local alert service for coding agents, and the decisions of its tray app,
written in Verus. An agent posts "awaiting user input" or "all tasks finished";
the service keeps one active alert per session, most recent first, and loops
one sound: the most recent question that is not silenced, else the most recent
alert that is not silenced. Dismissing or silencing an alert by its id touches
only that alert, so a stale id never silences a newer one.

## Layout

- `src/` — the verified library.
  - `text.rs`: whitespace trimming (`White_Space`), control characters, UTF-8
    byte length, literal comparison, hexadecimal and decimal rendering, joining.
  - `origin.rs`: the optional hints for returning to the requesting session,
    their validation and terminal aliases.
  - `notification.rs`: the alert record and the tray app's status report.
  - `server.rs`: the service state — accepting, replacing, dismissing,
    silencing and clearing alerts, and which sound loop plays.
  - `model.rs`: the tray app's decisions — each 400 ms poll's snapshot, window
    visibility and tooltip, the dismissal URL and how the service's reply to it
    reads, the service address and the check that it is local HTTP.
  - `focus.rs`, `platform.rs`: returning to the requesting session — the targets
    to try, how their outcomes settle, and the decisions around the platform's
    helpers (scripts, tmux). The platform (`FocusHost`) only answers single
    questions (a bundle's running instances, the application at a process, a
    process's parent) and activates an application or runs a script or tmux;
    the plan for each target in each application, the reading of every answer
    and the order of the tmux commands are decided and proved here.
  - `applications.rs`: which applications may own the session — a bundle's
    instances, the walk up a process's ancestry, the supported terminals as
    the fallback for a session or window hint. `AttemptLog`
    and `HostLog` record every call handed to the caller's attempts and to the
    platform, so the contracts of `try_targets`, `focus_tmux` and `focus` say
    which calls were made, in what order, and what each answer led to.
  - `schedule.rs`: how a sound loop paces itself — escalation step and pause.
  - `laws.rs`: properties across calls, proved.
- `tests/` — scenarios on concrete values.
- `app/` — the HTTP service (actix-web), its JSON shapes, configuration and
  audio thread. The service offers the alert API only: no route plays a single
  sound on request. The tray app's shell (window, tray icon, the macOS calls
  behind `FocusHost`) is not part of this crate; its decisions are in `src/`.
- `extras/notify_config.json` — an example configuration, in JSON; sound paths
  are relative to the file. Point `NOTIFY_CONFIG_PATH` at it.
