# votablit

The verified core of a community leaderboard on which users vote for the AI
model that gets abliterated next.

- `src/` — the library, verified with Verus: validation of model IDs, client
  IPs and the admin token (`extractors`), HuggingFace link and file-tree
  checks (`hf`), the vote and model-submission rules as step-by-step
  progress records (`voting`, `submission`), the delivery steps (`delivery`), pagination and the answers of
  the JSON API and the HTML pages (`routes`), with the laws that tie them to
  the rate limits, the board cap and the removal of delivered models.
- `app/` — the HTTP service around it: Axum routes, SQLite queries through
  sqlx, HuggingFace requests through reqwest, and templates.
- `tests/` — tests of the library on concrete values.
