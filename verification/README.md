# penguin_downloader_tui

A terminal client for the `penguin-downloader` music library, split in two:

- `src/` is the verified library (Verus): the configuration and its
  validation, the credential store, the state, key handling and screen content
  (texts, marks, highlights, dialog geometry) of every page
  (home search box, song/album search, playlists, login, settings, download
  progress), quality choices, file-name sanitising, the log line format and
  log clean-up, and the QR code drawing. Each page's key handler returns a
  request (search, start a login, save, download) that the application
  carries out; laws about the pages and stores are stated as proof functions
  beside the code they speak of.
- `app/` is the program around it: the terminal (crossterm, ratatui), the
  plugin core and its asynchronous calls, background logins and download
  workers, and reading and writing `config.toml`, `credentials.json` and the
  log files.
- `tests/` exercises the library on concrete values.
