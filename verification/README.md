# encode_bridge

A bridge that has recordings of EPGStation encoded by Amatsukaze: it downloads the
recording, queues it in Amatsukaze with the requested profile, waits for the encode,
and uploads the result back to EPGStation.

- `src/` is the verified library (Verus): request and configuration validation, the
  table of workflows and the index of requests in progress, the decisions of each
  workflow run (`workflow.rs`: from the outcome of one step to the next step, with its
  arguments, and the status update), the polling decisions while talking to Amatsukaze, the choice of the
  input file and the checks of EPGStation's replies, file-name and path handling, and
  the log window's trimming and icon.
- `app/` is the program around it: command line, configuration file, HTTP server and
  clients, file system work, queue slots, and the Windows tray window. It carries out
  the commands that the library's workflow run issues and reports their outcomes back.
- `tests/` exercises the library.
