# punktfunk_linux

The Linux input and display core of a streaming host, verified with Verus.

Touch input:

- `contacts`: the wire's touch events as multitouch frames (kernel MT protocol B).
- `evdev`: the byte image of a frame.
- `touchscreen`: the uinput touchscreen, what it declares and what it writes.
- `touch_laws`: what the frames add up to for whoever reads them.

Virtual outputs in a niri session:

- `output_names`: the names `pf-1`, `pf-2` and so on.
- `niri_msg`, `niri_error`: requests to niri, their answers, and what can go wrong.
- `niri`: one virtual output, from its creation to its removal.
- `cast`: the screencast of an output and the thread that keeps it.
- `session_laws`: what holds over whole runs of an output and of a cast.
- `monitors`: the outputs that niri reports.

Underneath: `json` (documents, read by `serde_json`), `double` (doubles as bit patterns) and `text`.

`app/` holds the device nodes, processes, threads and D-Bus calls around the library. Its loops
perform the actions that the library's state machines ask for, and hand back what came of them.
