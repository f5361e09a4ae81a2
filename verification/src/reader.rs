use vstd::prelude::*;
use crate::result::{context_record, succ_id, DbResult, ErrorChain, ErrorIds, Kind, ResultContext};

verus! {

/// A step of reading the next entry of a store: what to do next, or the
/// result to hand back.
pub enum ReadStep {
    /// Read the reader's current entry into the caller's buffer.
    ReadCurrent,
    /// Move the reader on, an entry having been read.
    AdvanceAfterEntry,
    /// Move the reader on, there having been no entry to read.
    AdvancePastGap,
    /// Reading is over; hand back this result.
    Finish(DbResult),
}

/// What the reader reported for the step that was asked of it.
pub enum ReadEvent {
    /// The outcome of reading the current entry, or nothing where there was
    /// no entry to read.
    Current(Option<DbResult>),
    /// The outcome of moving on: whether there is a further entry, or the
    /// error that moving on failed with.
    Advanced(Result<bool, ErrorChain>),
}

/// Whether `event` is what the reader reports for the step `asked`.
pub open spec fn event_answers(asked: ReadStep, event: ReadEvent) -> bool {
    match asked {
        ReadStep::ReadCurrent => event is Current,
        ReadStep::AdvanceAfterEntry => event is Advanced,
        ReadStep::AdvancePastGap => event is Advanced,
        ReadStep::Finish(_) => false,
    }
}

/// Decides what follows when the reader has done the step `asked` and
/// reported `event`: a read entry is followed by moving on and then
/// success; a failed read ends with its result; a gap is followed by moving
/// on and then reading again, or `Done` where there is nothing further; a
/// failure to move on ends with an internal error that records it.
pub fn next_read_step(
    ids: &mut ErrorIds,
    ctx: &mut ResultContext,
    asked: ReadStep, event: ReadEvent,
) -> (next: ReadStep)
    requires
        event_answers(asked, event),
    ensures
        match event {
            ReadEvent::Current(Some(r)) => {
                &&& final(ctx)@ == old(ctx)@
                &&& final(ids)@ == old(ids)@
                &&& if r.kind() == Kind::Success {
                    next is AdvanceAfterEntry
                } else {
                    next == ReadStep::Finish(r)
                }
            },
            ReadEvent::Current(None) => {
                &&& final(ctx)@ == old(ctx)@
                &&& final(ids)@ == old(ids)@
                &&& next is AdvancePastGap
            },
            ReadEvent::Advanced(Ok(more)) => {
                &&& final(ctx)@ == old(ctx)@
                &&& final(ids)@ == old(ids)@
                &&& if asked is AdvanceAfterEntry {
                    next matches ReadStep::Finish(r) && r.kind() == Kind::Success && r.id() == 0
                } else if more {
                    next is ReadCurrent
                } else {
                    next matches ReadStep::Finish(r) && r.kind() == Kind::Done && r.id() == 0
                }
            },
            ReadEvent::Advanced(Err(e)) => {
                next matches ReadStep::Finish(r) && {
                    &&& r.kind() == Kind::InternalError
                    &&& r.id() == old(ids)@
                    &&& final(ids)@ == succ_id(old(ids)@)
                    &&& final(ctx)@ == context_record(r, e)
                }
            },
        },
{
    match event {
        ReadEvent::Current(Some(r)) => {
            if r.is_ok() {
                ReadStep::AdvanceAfterEntry
            } else {
                ReadStep::Finish(r)
            }
        },
        ReadEvent::Current(None) => ReadStep::AdvancePastGap,
        ReadEvent::Advanced(Ok(more)) => {
            if matches!(asked, ReadStep::AdvanceAfterEntry) {
                ReadStep::Finish(DbResult::ok())
            } else if more {
                ReadStep::ReadCurrent
            } else {
                ReadStep::Finish(DbResult::done())
            }
        },
        ReadEvent::Advanced(Err(e)) => ReadStep::Finish(DbResult::from_error(ids, ctx, &e)),
    }
}

} // verus!
