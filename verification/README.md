# stremio_shell

The verified core of the Stremio desktop shell for Linux.

- `src/` is the library, checked by Verus:
  - `text` — prefix tests and string comparison on characters;
  - `payload` — base64 and octet-stream data URLs handed over by the web UI
    (base64 itself is done by the `base64` crate behind one trusted wrapper);
  - `ipc` — the messages exchanged with the web UI;
  - `shell` — the shell as a state machine: from its state and an event (an IPC
    message, a window, tray, player, media-control or desktop report) to the
    next state and the effects to perform, with the laws it keeps;
  - `launch` — program arguments, desktop detection, the streaming server's
    environment and the keyboard shortcuts;
  - `presence` — the Discord activity shown for what is playing.
- `app/` is the unverified driver: the streaming server process, Discord's IPC
  socket, file downloads, and the loop that performs effects and feeds the
  outcomes back to the shell.
- `tests/` exercises the library on concrete values.
