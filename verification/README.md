# native_db

Result codes, error reporting and parameter passing for a native key-value
store that is driven across a foreign-function boundary, verified with Verus.

- `src/result.rs`: `DbResult` and its kinds, the `ErrorIds` that hand out
  error identifiers, the `ResultContext` that keeps the last result with its
  message,
  `format_error`, `catch`, and the laws that relate them.
- `src/ffi.rs`: `db_last_result`, which reports the last result and copies its
  message into a caller's buffer; `DbKey`.
- `src/reader.rs`: the decisions of the loop that reads the next entry.
- `src/handle.rs`, `src/param.rs`: owning handles and the parameter types of
  the boundary, written with references in place of raw pointers.
- `app/lib.rs`: the process-wide identifier source, the per-thread context, panic catching, the conversion of
  `failure` errors to text, and raw pointers.
