# gitea_forge

A client of the Gitea forge for release automation, verified with Verus. It reads
commits, tags, releases and files of one repository, and makes commits, release
branches, tags, releases, and pull requests with their labels.

- `src/` is the library. It sends nothing: an operation yields a request and takes
  the reply to it. An operation of several requests is a state with a step, and its
  contract says what the step makes of a reply.
  - `gitea` sets a forge up; `labels`, `pulls`, `pull_edits`, `commits`, `tags`,
    `releases`, `files` and `branches` hold its operations.
  - `http` has requests, replies and the runs of operations; `types` and `wire` have
    the data; `error` and `text` what all of them need.
  - `laws` states and proves what whole runs of operations come to.
  - `bindings` calls the URL, regular expression, version, date, Base64 and JSON
    crates. Its contracts are the only ones that are believed without a proof.
- `app/` sends the requests over HTTP with reqwest, and turns JSON into the types of
  the library and back.
- `tests/` runs the library on values.
