# Comet

Comet is a small self-hosted file and media host: users upload files, get a
short URL for each, and manage them from a dashboard that follows their uploads
over a web socket.

The crate is split in two:

- `src/` is the library, verified with Verus. It holds the decisions of the
  server as functions with contracts: how file names split into id and
  extension and how public URLs and storage paths are built (`paths`), how raw
  EXIF and tag values are cleaned into the displayed metadata (`metadata`,
  `text`), what is read from a stored file's bytes (content hash, audio tags,
  EXIF fields, thumbnails: `content`), session tokens and API keys (`jwt`), login, sign-up, password and
  settings rules (`auth`, `settings`), file listing pages (`files`), upload
  limits and placement (`upload`), deletion, viewing and thumbnails
  (`storage`), socket events (`ws`) and the ShareX uploader configuration
  (`sharex`).
- `app/` is the server around it: the axum routes, the SQLite database, files on
  disk, the floating-point parts of the metadata, and the JSON forms of the
  library's types.

An upload (`POST /upload`) of one file is answered with one object
`{"file", "file_url", "file_size"}` whose `file_url` is `/media/<id>.<ext>`;
several files are answered with a list. `DELETE /delete/<id>` removes a file
and answers `{"message": "Removed."}`.

Run the server with `JWT_SECRET` set (and optionally `PORT`); it stores its
database in `data.db` and uploads under `uploads/`.
