# vnox_ui

The state and decision logic of a desktop client for a self-hosted voice and
text chat service, written in Verus with its behaviour stated in contracts and
proved.

- `src/` — the verified library: the UI state (`types`, `models`, `strmap`),
  how network events change it (`poll`, `chat_channels`, `chat_messages`,
  `social`, `status`, `e2ee`), what the user's actions do (`compose`, `state`,
  `requests`, `guild_admin`), when voice runs (`voice`), which input a key binding reads (`keybind`), what the panels show
  (`panels`, `view`, `members`, `theme`, `format`, `forms`), and properties
  that hold across handlers (`laws`).
  The outside calls it makes (random ids, the wall clock, Unicode upper and
  lower case, appending a character) sit behind small trusted wrappers in
  `ids`, `clock`, `view`, `members` and `text`; `stdx` states what string
  equality means.
- `tests/` — tests of the library on concrete values.
- `app/` — the runtime around the library: the network handle's event loop,
  the audio pipeline and the end-to-end encryption, which live in the client's
  networking crate.
