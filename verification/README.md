# cool_admin

The core of an admin-backend framework, written in Verus: the framework's
rules and computations that run on plain values (parsing, SQL text, paging,
registries, plans and decisions) are executable functions with contracts, and
Verus proves each function against its contract. What needs a database, a web
server, an async runtime or the file system is not in the library: the
statements it builds are run, and the requests it plans are sent, by the
surrounding application.

## Layout

- `src/` — the verified library.
  - `text`, `scan`, `assoc`: text, parsing and association-list helpers.
  - `util`: case conversion, hashing, ids, random text, time formatting,
    paths and IP classification.
  - `config`, `constant`, `error`: settings, response codes and errors.
  - `entity`, `service`: query options, paging and the SQL the CRUD service
    builds; `entity::mongo` holds the ObjectID.
  - `cache`, `tag`, `event`, `module`, `eps`, `controller`, `middleware`,
    `application`: the in-memory registries and the request pipeline's
    decisions.
  - `attr`: what the framework's attributes accept and produce.
  - `task`: jobs, queues, workers and the cron scheduler.
  - `rpc`: service discovery, calls, events and distributed transactions.
  - `es`: search-engine settings, request bodies and responses, over a JSON
    document type of the library's own.
  - `plugin`: plugins, hooks, the installer, uploads and the file cache.
  - `cli`: the command-line tools' decisions.
- `tests/` — tests of the library on concrete values.
- `app/` — what needs the disk, the network or serialisation: file I/O, token
  signing, JSON conversion and serialisable copies of the library's types.
  Running SQL statements, serving HTTP and running event handlers are done by
  neither: the crates for them are not dependencies here.

Laws that relate several operations are public proof functions named `law_*`.
