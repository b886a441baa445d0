# erudition

A quiz server with user accounts, and the development runner that serves
its app, server and logs together.

- `src/` is the verified library: stored data (items, feedback, users),
  the server state with signin, login and session ids, the answers to HTTP
  requests and their log lines, the data folder's paths, the geography
  items, the question page's cycling, and the development runner's plans
  (tmux and process invocations, logcat line formatting).
- `app/` is the executable around it: the actix-web server, the storage of
  the data with postcard, logs with timestamps, the development runner's
  process execution.
- `tests/` exercises the library on concrete values.
