# clawd

The logic of Clawd, a desktop pet that walks along the bottom of the screen,
climbs the edges of the screen and of windows, sleeps while the user is away,
and answers a local HTTP control API. The library is written in Verus and its
contracts are proved.

- `src/state.rs` — the pet's states, their keys (`key`, `from_key`,
  `all_keys`), the working pool and the payload shown to the front end.
- `src/mood.rs` — the mood ticker (active, resting, sleepy).
- `src/pet_controller.rs` — the walker (one tick of walking, climbing,
  falling and turning corners) and the automatic cycle.
- `src/window_tracker.rs` — which desktop windows the pet can use.
- `src/pet_pack.rs` — the built-in character packs.
- `src/http_api.rs` — requests that set the state, with their debounce.
- `src/file_eater.rs` — which paths may be eaten and how the pet reacts.
- `src/tray.rs` — the tray menu's entries.
- `src/random.rs` — the random draws, through `rand`.

`app/` is the Tauri application around the library: the tasks that sleep,
read the desktop, move the window, serve HTTP and touch the disk.
