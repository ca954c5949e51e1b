# neon_storage

Decisions of a storage system for many tenants, as a verified library: paths on a remote
storage and the requests that reach it (`remote_path`, `remote_storage`), detaching a timeline
from its ancestor (`detach`), where a bucket keeps tenants and how objects are fetched from it
(`scrubber`), and the HTTP API of the storage controller (`controller`).

* `src/` is the library. Every operation that talks to disks, networks or other tasks is a
  state machine here: a state says what is needed next, takes what came back, and says what
  follows. The contracts state each of these decisions, and the laws state what whole runs
  come to.
* `app/` is the program around it: it does what the states ask for.
* `tests/` runs the library on concrete values.

What the library leaves to outside crates (reading paths, URLs, URIs and points in time,
status codes, semaphores) stands in small functions whose contracts are believed, each with a
comment on what it claims.
