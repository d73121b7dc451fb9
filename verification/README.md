# rssify

Turns a few websites into RSS feeds:

- the paid articles of lwn.net, once they become freely available;
- the CISA catalogue of known exploited vulnerabilities (KEV).

## Layout

- `src/` is the library, verified with Verus. It decides which catalogue
  entries are new and what is stored for them, which lwn.net headlines are
  paid articles, where an article announces the day it becomes free, how a
  release date is stored, and what the published feeds hold. The outside
  crates it relies on (json, rss, scraper, chrono) are called through small
  trusted functions whose contracts say what is assumed of them.
  - `error`: the errors of the library.
  - `release`: the sentence that announces a release date, matched character
    by character.
  - `dates`: dates read by chrono, the local clock, and the text a date is
    stored as.
  - `json_doc`, `feed`, `html`: JSON documents, RSS feeds and HTML pages.
  - `kev`, `lwn`: the two sources.
  - `source`: what saving a feed ends in.
- `app/` is the program: command line, HTTP requests, the PostgreSQL
  database and files.
- `tests/` exercises the library on concrete inputs.

## Usage

```bash
rssify /tmp/rss/
```

The database is reached through `DATABASE_CONNECTION`, or through
`POSTGRES_HOST`, `POSTGRES_USER` and `POSTGRES_PASSWORD`.
