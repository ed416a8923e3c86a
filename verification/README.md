# riff

The decision logic of a music-streaming client for the desktop and the phone,
written in Verus: every function of the library states what it does and is
proved to do it.

- `src/text.rs`, `src/lists.rs`, `src/sorting.rs`, `src/id_set.rs`: strings,
  sequences, stable sorting by any total order, sets of ids.
- `src/models.rs`, `src/card_model.rs`, `src/card_enums.rs`, `src/song_list.rs`,
  `src/state.rs`, `src/actions.rs`: the values that the program works on, its
  state, and what pages ask for.
- `src/api/`: the values of the web API, what is made of its answers, and how its
  answers are cached.
- `src/pages/`: album, artist, playlist, radio, library, search, home, queue,
  settings and the drawers and menus on top of them.
- `src/shell/`: the players here and elsewhere, the playback bar and sheet, the
  navigation.
- `src/widgets/`: cards, grids of cards and lists of songs.

A page owns a snapshot of the state and an outbox. What it wants done (an action,
a call to the web API) goes into the outbox; what follows from the answer is a
function of that answer. The program in `app/` carries out what is in the outbox,
reads and writes files and JSON, and deals with floating-point gestures.

The laws of the library are the public proof functions whose names start with
`law_`.

What is not proved is what other crates do: `gettextrs`, `regex`,
`form_urlencoded`, `rand` and `librespot` are called through small functions
marked `external_body`, each with the contract that the library relies on. The
same holds of three functions of the standard library: `str::to_lowercase`,
`char::is_whitespace` and `String::push`.
