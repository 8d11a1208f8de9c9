# favspace

The verified core of Favspace, a local-first library of URLs, files and
folders. The library decides; the application around it talks to the
database, the network, the file system and the Windows Shell.

## Layout

- `src/` — the library, verified with Verus:
  - `text.rs` — strings as sequences of chars: trimming, case, prefixes.
  - `web_url.rs` — parsed URLs (`url` crate) and the normalization of what a
    user pastes into a stored web address.
  - `guard.rs` — the guard that keeps metadata requests away from local and
    private network targets.
  - `fetch.rs` — following one request through redirects, one decision at a
    time; every request goes to a URL the guard has just allowed.
  - `metadata.rs` — gathering a page's title, description and icon, one
    decision at a time, on top of `fetch.rs`.
  - `page.rs` — reading a fetched page (`scraper`), choosing the icons to try
    and naming the cached icon files.
  - `library.rs` — item edits, collections, tags, local resources, data URLs
    and thumbnail file names.
  - `thumbnail.rs` — checking, reordering and encoding (`image`) the bitmap
    the Windows Shell returns for a file.
  - `digest.rs` — SHA-256 (`sha2`), hexadecimal (`hex`) and base64 (`base64`).
  - `clock.rs` — the wall clock.
- `app/` — the Tauri application: commands, SQLite, HTTP, name resolution,
  the file system and the Windows Shell calls.
- `tests/` — tests of the library.
