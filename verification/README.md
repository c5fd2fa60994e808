# native-ime

A native input method bridge for Linux, for hosts that draw themselves: game
engines, cross-platform toolkits, off-screen renderers. Such hosts have no
window through which the window system would offer an input method. This
library talks to Fcitx5, Fcitx 4 or IBus over D-Bus instead.

The library in `src/` is written in Verus: every function states what it
returns or changes, and is proved to do so, but for what it has from other
crates and from the standard library. There ten wrappers (in `object_path`,
`queue`, `text` and `variant`) and four assumed specifications (in `ffi`,
`queue` and `text`) are trusted; the comment above each says what is claimed.
Of a call on a backend or on the queue the contracts say that it is made, and
with what; that no further call is made, they do not say. Where a call is to be
left out, it goes through a function that may make it only where it is due
(`with_handle`, `hand_on_text`, `hand_on_content_type`, `poll_into` and
`announce`).
`app/` is ordinary Rust around it:
the D-Bus proxies, the C interface with its pointers, and a program that tries
the library out. `tests/` runs the library with the real crates.

## Modules

| Module | What it holds |
|--------|---------------|
| `types` | events, cursor rectangle, content types, capabilities |
| `backend`, `engine`, `handle` | the backend interface, and what a host holds on one |
| `queue` | the bounded queue between the two |
| `detect` | the order in which frameworks are tried |
| `fcitx5`, `fcitx4`, `ibus` | connecting, subscribing, calls and signals of each framework |
| `convert` | what the frameworks have in common |
| `variant`, `object_path` | D-Bus values and paths |
| `event_data`, `ffi` | the C interface, on references |
| `poc`, `poc_args`, `poc_report` | the demonstration program |
| `text` | writing and reading numbers, comparing texts |

## C interface

| Function | Meaning |
|----------|---------|
| `ime_create()` | finds a framework; null where there is none |
| `ime_destroy(handle)` | gives the handle up |
| `ime_focus_in(handle)`, `ime_focus_out(handle)` | the text field gained or lost the focus |
| `ime_set_cursor_rect(handle, x, y, w, h)` | where the cursor is on the screen |
| `ime_set_surrounding_text(handle, text, cursor, anchor)` | the text around the cursor, offsets in bytes |
| `ime_backend_kind(handle)` | 0 unknown, 1 Fcitx5, 2 Fcitx 4, 3 IBus |
| `ime_capabilities(handle)` | bits: preedit, commit, forward key, delete surrounding text, surrounding text, content type |
| `ime_set_content_type(handle, type)` | 0 normal, 1 password, 2 number, 3 phone, 4 URL, 5 email |
| `ime_reset(handle)` | drops the composition under way |
| `ime_process_key_event(handle, keysym, keycode, state, is_release)` | 1 where the input method took the key |
| `ime_poll_event(handle, out_data)` | the kind of the next event: 0 none, 1 preedit, 2 end of preedit, 3 commit, 4 delete surrounding text, 5 forward key |

A text of more than 2047 bytes is cut between two characters.

## Demonstration program

```
ime-poc [--interactive] [--log-text] [--surrounding-text <text> [--cursor <n>] [--anchor <n>]]
```

It types a short text, or the lines it reads, and logs what comes of it. Texts
and keys are logged by their sizes alone unless `--log-text` is given.
