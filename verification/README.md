# nextui_updater

An updater for NextUI, for Pakman and for itself, on a handheld with a game
controller. The decisions are a library that is verified with Verus; the window,
the network, the disk and the machine are a thin program around it.

- `src/app_state.rs`: the state that the screen and the operations share
- `src/work.rs`: what an operation asks of its surroundings, and what it is told
- `src/update/`: updating the updater and NextUI, and checking for releases
- `src/pakman.rs`: the same for Pakman
- `src/github.rs`, `src/version.rs`, `src/archive.rs`, `src/download.rs`: releases
  and tags, versions, packages, downloads
- `src/screen.rs`, `src/input.rs`, `src/files.rs`, `src/text.rs`: menus, the
  controller, files on the card, text
- `src/laws/`: what holds of every run of an operation
- `app/`: the program

An operation is begun by a function that returns what it waits for and a piece of
work. Whoever does the work calls `resume` with the event that tells how it ended,
until there is no work left. An operation that has a package to look into does so in
`prepare`, which is called before `resume` and needs no shared state.
