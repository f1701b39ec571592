# Remote desktop

A remote-desktop system: a host shares its screen, a client watches and
controls it, and a relay server passes messages between the two.

- `src/` is the library, verified with Verus: dirty-tile encoding of the screen
  (`tiles`, `delta`), the relay server's rooms and sessions (`registry`,
  `service`, `relay_laws`, `auth`, `identity`), and the desktop application's
  sessions, commands, input and clipboard (`relay_client`, `commands`, `state`,
  `input`, `clipboard`, `capture`).
- `app/` is the program around it: gRPC, the command line, and the desktop
  shell with screen capture, JPEG compression, input injection and clipboard.
- `tests/` runs the library.

The screen is cut into tiles of 128 by 128 pixels. Each capture is compared
with the last one by the FNV-1a hashes of its tiles, and only tiles that changed
are compressed and sent. A whole picture goes out first, after a change of
resolution, when a client joins, and at least once in 120 captures.

A host announces its device with a password. A client joins with the device's ID
and that password; a room holds one host and one client.
