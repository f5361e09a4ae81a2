use vstd::prelude::*;
use vstd::string::StrSliceExecFns;
use vstd::utf8::encode_utf8;
use crate::result::{is_error_kind, last_report, succ_id, DbResult, ErrorIds, Kind, LastResultView, ResultContext};

verus! {

/// A key of the store: sixteen bytes.
pub struct DbKey(pub [u8; 16]);

/// What `db_last_result` hands back for a context: the recorded result and
/// the bytes of its message, or a success and no message where nothing is
/// recorded.
pub open spec fn reported_message(c: Option<LastResultView>) -> Option<Seq<u8>> {
    match last_report(c) {
        Some((_, Some(m))) => Some(encode_utf8(m)),
        _ => None,
    }
}

/// Reports the last recorded result across the boundary: `result` receives
/// it (a success where nothing is recorded), `actual_message_len` the
/// length in bytes of its message (0 where there is none), and
/// `message_buf` the message itself where it fits. Returns a
/// `BufferTooSmall` error where it does not fit, and a success otherwise.
pub fn db_last_result(
    ids: &mut ErrorIds,
    ctx: &ResultContext,
    message_buf: &mut [u8],
    actual_message_len: &mut usize,
    result: &mut DbResult,
) -> (r: DbResult)
    ensures
        match last_report(ctx@) {
            Some((v, _)) => *final(result) == v,
            None => final(result).kind() == Kind::Success && final(result).id() == 0,
        },
        match reported_message(ctx@) {
            None => {
                &&& *final(actual_message_len) == 0
                &&& final(message_buf)@ == old(message_buf)@
                &&& r.kind() == Kind::Success && r.id() == 0
                &&& final(ids)@ == old(ids)@
            },
            Some(bytes) => {
                &&& *final(actual_message_len) == bytes.len()
                &&& if old(message_buf)@.len() < bytes.len() {
                    &&& final(message_buf)@ == old(message_buf)@
                    &&& r.kind() == Kind::BufferTooSmall
                    &&& r.id() == old(ids)@
                    &&& final(ids)@ == succ_id(old(ids)@)
                } else {
                    &&& final(message_buf)@ == bytes + old(message_buf)@.skip(bytes.len() as int)
                    &&& r.kind() == Kind::Success && r.id() == 0
                    &&& final(ids)@ == old(ids)@
                }
            },
        },
        // What is reported is what `last_result` hands over: an error's
        // message, of whatever kind, is reported and copied where it fits.
        match last_report(ctx@) {
            Some((v, Some(m))) => {
                &&& *final(result) == v
                &&& *final(actual_message_len) == encode_utf8(m).len()
                &&& old(message_buf)@.len() >= encode_utf8(m).len() ==> {
                    &&& final(message_buf)@ == encode_utf8(m) + old(message_buf)@.skip(encode_utf8(m).len() as int)
                    &&& r.kind() == Kind::Success
                }
                &&& old(message_buf)@.len() < encode_utf8(m).len() ==> {
                    &&& final(message_buf)@ == old(message_buf)@
                    &&& r.kind() == Kind::BufferTooSmall
                }
            },
            _ => {
                &&& *final(actual_message_len) == 0
                &&& final(message_buf)@ == old(message_buf)@
                &&& r.kind() == Kind::Success
            },
        },
{
    let (value, bytes): (DbResult, Option<Vec<u8>>) = match ctx.last_result() {
        None => (DbResult::ok(), None),
        Some((v, m)) => (v, match m {
            Some(s) => Some(s.as_bytes_vec()),
            None => None,
        }),
    };
    *result = value;
    match bytes {
        Some(b) => {
            *actual_message_len = b.len();
            if message_buf.len() < b.len() {
                return DbResult::buffer_too_small(ids);
            }
            let ghost before = message_buf@;
            let n = b.len();
            let mut i: usize = 0;
            while i < n
                invariant
                    n == b@.len(),
                    n <= before.len(),
                    i <= n,
                    message_buf@.len() == before.len(),
                    forall|j: int| 0 <= j < i ==> message_buf@[j] == b@[j],
                    forall|j: int| i <= j < before.len() ==> message_buf@[j] == before[j],
                decreases n - i,
            {
                message_buf[i] = b[i];
                i = i + 1;
            }
            assert(message_buf@ =~= b@ + before.skip(n as int));
        },
        None => {
            *actual_message_len = 0;
        },
    }
    DbResult::ok()
}

/// Every error recorded with a message has that message reported, as its
/// bytes, whatever the error's kind; a record that is not an error, or
/// that has no message, reports none.
pub proof fn lemma_reported_message(value: DbResult, err: Option<Seq<char>>)
    ensures
        is_error_kind(value.kind()) && err is Some ==> reported_message(
            Some(LastResultView { value, err }),
        ) == Some(encode_utf8(err.unwrap())),
        !is_error_kind(value.kind()) || err is None ==> reported_message(
            Some(LastResultView { value, err }),
        ) is None,
        reported_message(None) is None,
{
}

} // verus!
