# rift-app-indicator

A menu-bar companion for the Rift window manager, and a `service`
subcommand that installs and manages the user LaunchAgent keeping it
running.

- `src/` is the verified library:
  - `service` — each service operation (install, uninstall, start, stop,
    restart) as a task that asks for one outside step at a time and
    decides from the answer what comes next; `service_laws` holds what is
    proved of every run of such a task.
  - `command` — which operation a command word names, and what is printed
    and returned when it is over.
  - `plist`, `paths`, `error`, `text` — the agent definition, the paths and
    launchd names, the error texts, decimal rendering.
  - `indicator`, `status_bar`, `order` — the menu model built from Rift's
    workspaces (applications listed once each, sorted by lowercase name),
    the status-bar row's groups and layout; `indicator_laws` holds what is
    proved of them.
- `app/` carries out the steps (files, `launchctl`, environment) and draws
  the indicator with AppKit.
