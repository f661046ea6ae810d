# radarflow

A web radar for CS:GO. The game runs in a virtual machine; its memory is read
from the host with memflow, turned into radar frames, and served to browsers
over a websocket.

- `src/` is the verified library (Verus): command line and configuration
  checks and their messages, the offsets file (through the `toml` parser) and
  its tables, the address arithmetic, the entity scan (which
  values of an entity to read next, and what the entity contributes to the
  frame), frame building, poll pacing and the websocket request protocol.
- `app/` is the program around it: argument parsing, files, the offsets
  download, memflow reads, the web server, the websocket server, and JSON.
- `tests/` exercises the library on concrete values.
