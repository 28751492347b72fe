# cadenza_shell

The state and decision logic of a Wayland desktop shell (bar, network and
Bluetooth menus, notification daemon and cards, battery watcher), written in
Verus: the functions under `src/` carry contracts that Verus proves.

## Layout

- `src/` — the verified library.
  - `network/`, `network_menu.rs`: NetworkManager codes and states, access
    point scans, the service's reactions to property changes, the wifi
    menu's model.
  - `bluetooth/`, `bluetooth_menu.rs`: the adapter and device snapshot, the
    service's event handling, the pairing slot, the menu's model.
  - `notifications/`: the freedesktop notifications daemon's bookkeeping,
    the notification store and its commands, the center, popup and fresh
    overlay models.
  - `battery/`: sysfs and udev readings, low-battery alerts, weekly slots.
  - `commands.rs`: command execution with a bounded undo/redo history.
  - `rows.rs`, `shell.rs`, `dispatch.rs`, `icons.rs`, `text.rs`: row
    reconciliation for keyed lists, the per-monitor layout, the one-time
    command channel, icon choice, and the text and number handling the rest
    builds on.
- `tests/` — tests of the library on concrete values.
- `app/` — the service host: D-Bus (zbus), BlueZ (bluer), udev, inotify and
  sysfs access, and the floating-point battery model. It hands the library
  plain values and carries out what the library decides.

Public proof functions named `lemma_*` state properties that hold across
calls: undo and redo invert each other, each battery alert fires at most
once per discharge, planned row edits bring a list up to date, and others.
