# kterm

The logic of a desktop terminal with tabs for SSH, Telnet, serial, local shell, RDP and VNC
sessions. The library under `src/` is proved with Verus; the program around it, which opens windows
and sockets, is under `app/`.

- `src/terminal/`: the screen, its history and selection, and what control sequences do to them.
- `src/remote_display/`: the picture of a remote desktop and what of it has to be uploaded.
- `src/connection/`: keyboard mapping, the merging of frames, Telnet framing, and the decisions of
  the RDP and VNC workers.
- `src/app/`: the state of the program, what each message does to it, and stored settings.
- `src/ui/`: what the tabs, forms and settings pages show.
- `src/text.rs`: decimals and other small work on text.

Each type has a mathematical view, and each operation says how the view changes. Public proof
functions state what holds across operations. The wrappers marked `external_body` call outside
crates; their doc comments say what is believed of each call.
