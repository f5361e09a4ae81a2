//! Result codes, error reporting and parameter passing for a native
//! key-value store that is driven across a foreign-function boundary.
//!
//! Every call reports a `DbResult`. Errors carry a fresh identifier, and the
//! last result of a call, with the text of the error behind it, is kept in a
//! `ResultContext` where the caller can read it back.

pub mod ffi;
pub mod handle;
pub mod param;
pub mod reader;
pub mod result;

pub use ffi::{db_last_result, DbKey};
pub use handle::{HandleExclusive, HandleShared};
pub use param::{Out, Ref, RefMut};
pub use reader::{next_read_step, ReadEvent, ReadStep};
pub use result::{format_error, next_err_id, CallOutcome, DbResult, ErrorChain, ErrorIds, Kind, ResultContext};
