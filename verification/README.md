# pharma_job_alert

Collects pharma job postings in Switzerland from job boards and company
career portals, drops duplicates and irrelevant postings, and writes them to
a JSON file (optionally mailing a digest).

- `src/` — the verified library (Verus):
  - `text.rs` — string operations (trim, substring search, affixes) proved
    against short specifications; lowercasing through the standard library.
  - `config.rs` — settings and the relevance filter, with its laws.
  - `models.rs` — the job listing and its view.
  - `scrapers/` — one module per source: search URLs, result-page layouts
    (`cards.rs`, reading pages through `scraper` in `html.rs`), JSON reply
    mapping, and `run.rs`, the per-source state machine that decides which
    request comes next and what a reply means.
  - `pipeline.rs` — deduplication by id, the relevance filter over listings,
    and the list of sources, with their laws.
  - `email.rs` — the digest: subject, HTML and text bodies, transport choice.
- `app/` — the program around it: configuration file, HTTP, pauses, SQLite,
  mail delivery and JSON output.
- `tests/` — tests of the library on concrete values.
