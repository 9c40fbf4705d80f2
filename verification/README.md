# policy_tracker

A tracker for government AI-policy publications and AI news. A worker fetches
configured sources on a cadence, normalizes what they publish into policy
records, keeps a version history of each record, and asks an AI service for a
short summary of every change; a backend serves the change feed and the
history of each entry.

The library in `src/` holds the rules of that system, each with a contract
proved by Verus:

- `config`: settings read from an environment snapshot, with their defaults
  and failures.
- `crawl_config`: the crawl settings stored with a source, and their bounds.
- `domain`, `date`, `json`, `text`: plain values and text operations.
- `feed_xml`, `news`, `government`, `normalization`: turning RSS, Atom, JSON
  and HTML documents into normalized records.
- `change_detection`: when a record gets a new version, the summary prompt,
  and how a generated summary is condensed.
- `change_feed`, `records`: the change-feed query, its pages, and entry
  details.
- `fetcher`, `summarizer`, `scheduler`, `ingestion`, `storage`: the decisions
  of an ingestion pass (retries, replies, which normalizer reads a source,
  what a source run records, object keys of raw documents).
- `digest`, `web_url`, `html`, `xml`, `json_codec`: calls into sha2, url
  parsing, scraper, quick-xml and serde_json, each behind a small trusted item whose contract is stated where
  it stands.

`app/` is the program around the library: it reads the environment, talks to
PostgreSQL, the sources, object storage and the AI service, serves HTTP, and
hands the library plain values. Run it as `backend` or `worker`.
