# stellar-archivist

Storage backends and verification for Stellar history archives, verified with Verus.

`src/` is the verified library. It performs no I/O: an operation is a value that says which step
comes next and takes what came of it, so that every decision has a contract.

| Module | What it holds |
| --- | --- |
| `error` | errors and their classification for retries |
| `config`, `store`, `factory`, `url` | backends, their settings, and the URLs that name them |
| `storage` | the operations of a backend |
| `staged`, `paths` | staged writes: opening, writing, commit, abort |
| `transfer` | writing a buffer, copying, downloading |
| `backend`, `delivery` | what staged writes and transfers leave at their destination |
| `hashing`, `history_format`, `verify` | bucket verification |
| `xdr_verify`, `failures` | ledger verification |
| `text` | characters and strings |

The laws that span several functions are the public proof functions whose names start with `law_`.

`app/` performs the steps, asynchronously, with OpenDAL and tokio. `tests/` runs the library, with
a backend kept in memory where one is needed.
