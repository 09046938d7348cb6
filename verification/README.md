# memoria_bootstrapper

The launcher and installer of the Memoria clients, with its logic verified by
Verus.

- `src/` is the verified library: command-line and launch-link parsing
  (`launcher`, `uri`), the client command lines, the install layout and the
  server's URLs (`config`), the installer's version decisions (`installer`),
  the registry writes (`registry`), rich-presence text and place lookups
  (`rpc`), the window's state (`status`), and the launch pipeline as a state
  machine (`pipeline`). Each module states its laws as public proof functions.
- `app/` is the program around it: downloads, archives, files, the registry,
  processes, Discord IPC and the eframe window.
- `tests/` runs the library on concrete inputs.
