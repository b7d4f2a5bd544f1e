# fractal

The decision logic of a GTK Matrix chat client, written in Verus: every
function in `src/` carries a contract that Verus proves.

## Layout

- `src/model.rs`: rooms, members, messages, stickers and the login, with
  their mathematical views.
- `src/appop.rs`: the room store (`AppOp`) and what each backend answer or
  user action does to it. Operations return the effects they ask for
  (backend commands, widget updates) as values of `src/effects.rs`.
- `src/stickers.rs`: ordering and laying out sticker groups.
- `src/room_settings.rs`, `src/account.rs`: what the settings panels show
  and allow.
- `src/backend_loop.rs`: the state machine that turns backend answers into
  calls on the window.
- `src/identity.rs`, `src/ids.rs`: the identity-service URL and Matrix
  identifiers, through `url` and `ruma-identifiers`.
- `src/laws.rs`: properties that span several operations, proved.
- `app/`: the GTK widgets, threads and network requests around the library.
- `tests/`: tests of the library on concrete values.
