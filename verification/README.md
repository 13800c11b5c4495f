# firmium

The verified core of Firmium, an OpenSubsonic music client, written in Verus.

`src/` is the library; every function there carries a contract that Verus
proves:

- `termium` — the terminal client's state machine (`App::update`,
  `handle_key`) and the laws it keeps (quitting is final, Tab cycles the
  login fields, left undoes right, the selection stays in its list,
  Backspace undoes a typed character).
- `keymap` — default keys, user overrides, arrow-key fallbacks and the
  terminal's key comparison; the laws state that overrides win, invalid
  overrides fall back with a warning, and every resolved key comes from a
  binding of that action.
- `desktop`, `library`, `settings`, `sorted_ids` — navigation, recap
  windows, panels, saved accounts, the bounded cover cache, the merged
  playlist list, recent artists, the mood mix, playback option rules and
  sorted cover-id lists of the desktop client.
- `screens`, `toasts`, `playback`, `session`, `playlist_sync`, `covers`,
  `forms`, `startup`, `cli` — what each screen loads when opened, the
  error toast stack (coalescing, cap of three, expiry), the repeat cycle
  and which player and track the panels follow,
  the connection state of the window, local-first playlists and their
  server copies, which covers to load, the login and name fields, the
  start-up choices and the one-shot command line of the desktop client.
- `format`, `color`, `viz_modes`, `rng`, `text`, `seq_facts` — durations
  and times of day, hex colors, visualizer modes, xorshift and lattice
  hashing, string helpers and shared facts about filtered sequences.

`app/` is the terminal program around the library (terminal I/O, drawing,
backend calls, reading the keymap file) plus the floating-point particle
simulation of the visualizer. `tests/` exercises the library.
