# media_server

A small static media service: it accepts image uploads, re-encodes them as
lossless WebP capped to a per-bucket size, stores them per bucket, serves
them back, and periodically removes expired files.

The crate is split in two:

- `src/` is the library. It holds every decision the service makes, each
  with a contract that its proof establishes:
  - `buckets`: validation of the bucket configuration, lookup by name, and
    each bucket's storage layout;
  - `image_processing`: the target size of a resized image, and the
    size read / decode / resize / encode pipeline over the `image` crate;
  - `image_id`: image ids as UUIDs, read and written through the `uuid`
    crate;
  - `auth`: bearer-token checking with a constant-time comparison;
  - `routes`: the upload form, where uploads are stored and what they are
    answered, and the delete and serve decisions;
  - `cleanup`: which buckets are swept and which files are removed;
  - `config`: defaults and derivations of the startup settings;
  - `error`: request errors and the HTTP status and message of each;
  - `text`: string helpers (decimal numbers, trimming, path joining).
- `app/` is the HTTP server (Axum and Tokio): it reads the environment and
  `buckets.toml`, runs the routes, serves and writes files, and runs the
  cleanup loop, asking the library what to do at every step; it also
  answers `GET /health` and traces requests through `TraceLayer`.

`tests/` exercises the library on concrete values.
