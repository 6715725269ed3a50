# social_api

The verified core of a likes service (HTTP API over PostgreSQL with a Redis
count cache).

- `src/` is the library, checked by Verus: reading user and content ids,
  cache keys and their lifetime, the decisions of each endpoint (like,
  unlike, counts, batch counts and statuses, a user's likes page by page,
  the leaderboard), the SQL text of the two queries that are built at run
  time, pagination cursors and the configuration.
- `app/` is the service around it: the Axum routes, the database and Redis
  calls, the JSON shapes, and reading the environment.
- `tests/` exercises the library on concrete values.

Module map of `src/`: `error` (refusals and their status and text), `text`
(decimal numbers as std reads and writes them), `ids` (UUIDs, the user
header), `cursor` (instants, base64 cursors), `cache` (Redis client, keys),
`config`, `likes` (like/unlike/count/batch endpoints), `pages` (a user's
likes, the leaderboard), `laws`.
