# media_organizer

A local media catalogue: photos and videos found on disk are recorded in a
SQLite database, tagged (tags form a tree), gathered into albums, listed with
filters and pages, and given cached thumbnails.

The library under `src/` is verified with Verus:

- `models` — the catalogue's records, file types, paging arithmetic.
- `sqlite` — SQL values, the rules by which stored values read back, and the
  calls into `rusqlite`.
- `decode` — reading query rows into records.
- `statements`, `repository` — the SQL text and parameters of every catalogue
  operation, fixed by exact builders, and the operations that run them and
  read the replies.
- `schema`, `connection` — tables, indexes, schema version, opening a database.
- `file_scanner` — which files are media, what is recorded of each, scan totals.
- `thumbnail_generator`, `checksum` — thumbnail cache names, SHA-256 checksums.
- `tag_tree` — deleting a tag with its descendants, children first.
- `text` — lowercase and decimal text.

`app/` holds the parts around it that are not verified: directory walking,
image decoding and EXIF reading, thumbnail files, serialisable records and the
command handlers.
