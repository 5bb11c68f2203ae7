# tmdbcache

A self-hosted catalogue of a video library backed by TMDB, with everything
cached locally: metadata in SQLite, artwork on disk.

The decisions of the server are a Verus-verified library (`src/`); the HTTP
server, the SQLite store, the TMDB client and the filesystem watcher are
ordinary Rust around it (`app/`).

## Layout

- `src/` — the verified library.
  - `config`, `appconfig`: settings read from the environment and the
    configuration answered to the UI.
  - `video`, `episode`, `store`, `people`, `collection`, `artwork`, `ranking`:
    how stored rows are written and read back (user state survives refreshes,
    overrides win over upstream values, tags toggle), and how the
    recommendation pool is ranked.
  - `dto`, `mapper`, `caching`: TMDB payloads and what caching one writes.
  - `service`, `ordering`: the get-or-fetch decisions, response assembly,
    search ordering and listings.
  - `tmdb`, `image`, `wallpaper`, `web`, `text`: request building, safe file
    names for the image cache, wallpapers and the fallback route.
  - `sorting`: the orders stored lists are read back in (tags by text,
    genres and networks by name, providers by priority then name).
  - `laws`: properties that span several operations, as proof functions.
- `tests/` — tests of the library on concrete values.
- `app/` — the server: routes, the SQLite schema and queries, the TMDB HTTP
  client and the wallpaper watcher.
