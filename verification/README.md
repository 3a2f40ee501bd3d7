# clubfridge_neo

The logic of the ClubFridge neo kiosk application, written in Verus and
verified.

- `src/` is the library. `log_viewer` holds the state of the hidden log viewer
  (file list, selection, loaded contents and what the viewer shows),
  `log_files` the log file names and the sorted listing of the log directory,
  `log_line` the colouring of log lines by level, `host` the owner of the
  viewer that reacts to Ctrl+L, Escape and the results of scans and reads,
  `keys` the keyboard shortcuts, and `checkout` the checkout screen.
  Each module states its laws as public proof functions.
- `tests/` runs the library on concrete values.
- `app/` is the iced program around it: `main.rs` runs the checkout screen;
  `log_viewer.rs` and `state.rs` hold the directory and file I/O, the
  rendering of the viewer and the application shell, which need the database,
  popup and screen modules of the full application.
