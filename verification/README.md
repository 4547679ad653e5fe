# rusty_cat

Resumable uploads and downloads: the rules of a transfer client, written in Verus
and proved.

A client queues transfers, runs a bounded number of them in each direction, retries
failed chunks, pauses, resumes and cancels, reports progress to callbacks, and makes
sure that what it calls complete is what was promised: uploads are compared with the
content that was hashed when the task was made, downloads with the digests of the
parts that were recorded on the way.

## Layout

- `src/` holds every decision. Functions there take the outcome of an operation and
  say what follows; nothing in it touches a disk, a socket or a thread. Each function
  has a contract, and the laws that span functions are proof functions named `law_*`.
- `app/` is the surroundings: the tokio runtime and its threads, files, locks, HTTP
  requests, and the traits that applications implement. It performs what `src/`
  decides.
- `tests/` runs the library on concrete values.

## Modules of the library

| Part | Modules |
|---|---|
| Tasks and configuration | `pounce_task`, `inner_task`, `meow_config`, `meow_client`, `direction`, `ids`, `transfer_status`, `error` |
| Scheduling | `scheduler_state`, `key_map`, `scheduler`, `executor`, `effect`, `worker_event`, `lifecycle`, `callbacks`, `scheduler_laws` |
| Workers | `exec`, `exec_parallel`, `part_window`, `retry`, `memory_budget`, `clock` |
| Sources and targets | `upload_file`, `source_check`, `digest`, `transfer_task`, `target_lease`, `order` |
| Signed URLs | `presigned`, `headers` |
| Logging | `log`, `log_lines`, `client_log`, `scheduler_log`, `worker_log`, `log_laws`, `text` |

What is believed rather than proved are the contracts of the functions and types that
stand for `reqwest`'s header types, the `md5` and `sha2` digests, `tokio`'s semaphore
limit, `fs2`'s lock error, and the clock. Each of them is marked
`#[verifier::external_body]` or `assume_specification` and says in its comment what it
claims.
