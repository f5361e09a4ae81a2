#![allow(unused_mut, unused_variables)]

use native_db::{
    db_last_result, format_error, next_err_id, next_read_step, CallOutcome, DbKey, DbResult,
    ErrorChain, ErrorIds, HandleExclusive, HandleShared, Out, ReadEvent, ReadStep, Ref, RefMut,
    ResultContext,
};

fn chain(causes: &[&str], backtrace: Option<&str>) -> ErrorChain {
    ErrorChain {
        causes: causes.iter().map(|c| c.to_string()).collect(),
        backtrace: backtrace.map(|b| b.to_string()),
    }
}

fn last_message(ctx: &ResultContext) -> Option<String> {
    ctx.last_result().and_then(|(_, m)| m.map(|m| m.to_string()))
}

#[test]
fn ok_and_done_are_not_errors() {
    let ok = DbResult::ok();
    assert!(ok.is_ok());
    assert!(!ok.is_done());
    assert!(!ok.is_buffer_too_small());
    assert!(!ok.is_argument_null());
    assert!(!ok.is_internal_error());
    assert_eq!(ok.as_err(), None);

    let done = DbResult::done();
    assert!(done.is_done());
    assert!(!done.is_ok());
    assert_eq!(done.as_err(), None);
    assert_ne!(ok, done);
}

#[test]
fn errors_take_fresh_ids() {
    let mut ids = ErrorIds::new();
    let mut ctx = ResultContext::new();
    let a = DbResult::buffer_too_small(&mut ids);
    let b = DbResult::buffer_too_small(&mut ids);
    let c = DbResult::argument_null(&mut ids);
    let d = DbResult::internal_error(&mut ids);
    assert!(a.is_buffer_too_small() && b.is_buffer_too_small());
    assert!(c.is_argument_null());
    assert!(d.is_internal_error());
    assert_ne!(a, b);
    assert_eq!(next_err_id(&mut ids), 4);
    assert_eq!(next_err_id(&mut ids), 5);
}

#[test]
fn ok_results_take_no_id() {
    let mut ids = ErrorIds::new();
    let mut ctx = ResultContext::new();
    assert_eq!(DbResult::ok(), DbResult::ok());
    assert_eq!(DbResult::done(), DbResult::done());
    assert_eq!(next_err_id(&mut ids), 0);
}

#[test]
fn error_messages() {
    let mut ids = ErrorIds::new();
    let mut ctx = ResultContext::new();
    assert_eq!(
        DbResult::argument_null(&mut ids).as_err(),
        Some("a required argument was null")
    );
    assert_eq!(
        DbResult::buffer_too_small(&mut ids).as_err(),
        Some("a supplied buffer was too small")
    );
    assert_eq!(
        DbResult::internal_error(&mut ids).as_err(),
        Some("an internal error occurred")
    );
}

#[test]
fn format_error_lists_causes_then_backtrace() {
    let e = chain(&["write failed", "disk full", "quota"], Some("frame 0"));
    assert_eq!(
        format_error(&e),
        "write failed.\n   caused by: disk full\n   caused by: quota\nbacktrace: frame 0\n"
    );
    assert_eq!(format_error(&chain(&["lonely"], None)), "lonely.\n");
    assert_eq!(format_error(&chain(&[], None)), "");
}

#[test]
fn nothing_recorded_at_first() {
    let ctx = ResultContext::new();
    assert!(ctx.last_result().is_none());
    assert_eq!(ctx.with_last_result(|r| r.is_none()), true);
}

#[test]
fn context_records_the_error_text() {
    let mut ids = ErrorIds::new();
    let mut ctx = ResultContext::new();
    let e = DbResult::argument_null(&mut ids);
    let r = e.context(&mut ctx, &chain(&["key was null"], None));
    assert_eq!(r, e);
    let (value, msg) = ctx.last_result().unwrap();
    assert_eq!(value, e);
    assert_eq!(msg, Some("key was null.\n"));
}

#[test]
fn from_error_is_an_internal_error_with_text() {
    let mut ids = ErrorIds::new();
    let mut ctx = ResultContext::new();
    let r = DbResult::from_error(&mut ids, &mut ctx, &chain(&["io"], None));
    assert!(r.is_internal_error());
    assert_eq!(last_message(&ctx), Some("io.\n".to_string()));
    assert_eq!(next_err_id(&mut ids), 1);
}

#[test]
fn catch_of_ok_records_ok_without_message() {
    let mut ids = ErrorIds::new();
    let mut ctx = ResultContext::new();
    ctx.begin_catch();
    let r = DbResult::catch(&mut ids, &mut ctx, CallOutcome::Returned(DbResult::ok()));
    assert!(r.is_ok());
    let (value, msg) = ctx.last_result().unwrap();
    assert!(value.is_ok());
    assert_eq!(msg, None);
}

#[test]
fn catch_of_plain_error_uses_its_message() {
    let mut ids = ErrorIds::new();
    let mut ctx = ResultContext::new();
    ctx.begin_catch();
    let e = DbResult::buffer_too_small(&mut ids);
    let r = DbResult::catch(&mut ids, &mut ctx, CallOutcome::Returned(e));
    assert_eq!(r, e);
    assert_eq!(
        last_message(&ctx),
        Some("a supplied buffer was too small".to_string())
    );
}

#[test]
fn catch_keeps_context_text() {
    let mut ids = ErrorIds::new();
    let mut ctx = ResultContext::new();
    ctx.begin_catch();
    let e = DbResult::internal_error(&mut ids).context(&mut ctx, &chain(&["boom"], None));
    let r = DbResult::catch(&mut ids, &mut ctx, CallOutcome::Returned(e));
    assert_eq!(r, e);
    assert_eq!(last_message(&ctx), Some("boom.\n".to_string()));
}

#[test]
fn catch_of_panic_is_internal_error() {
    let mut ids = ErrorIds::new();
    let mut ctx = ResultContext::new();
    ctx.begin_catch();
    let r = DbResult::catch(&mut ids, &mut ctx, CallOutcome::Panicked(Some("oops".to_string())));
    assert!(r.is_internal_error());
    assert_eq!(
        last_message(&ctx),
        Some("internal panic with 'oops'".to_string())
    );
    assert_eq!(ctx.last_result().unwrap().0, r);
}

#[test]
fn catch_of_panic_without_text_has_no_message() {
    let mut ids = ErrorIds::new();
    let mut ctx = ResultContext::new();
    ctx.begin_catch();
    let r = DbResult::catch(&mut ids, &mut ctx, CallOutcome::Panicked(None));
    assert!(r.is_internal_error());
    assert_eq!(last_message(&ctx), None);
}

#[test]
fn catch_of_panic_after_context_keeps_context() {
    let mut ids = ErrorIds::new();
    let mut ctx = ResultContext::new();
    ctx.begin_catch();
    let e = DbResult::argument_null(&mut ids).context(&mut ctx, &chain(&["null key"], None));
    let r = DbResult::catch(&mut ids, &mut ctx, CallOutcome::Panicked(Some("late".to_string())));
    assert_eq!(r, e);
    assert_eq!(last_message(&ctx), Some("null key.\n".to_string()));
    // No fresh id was taken for the panic.
    assert_eq!(next_err_id(&mut ids), 1);
}

#[test]
fn begin_catch_forgets_the_last_result() {
    let mut ids = ErrorIds::new();
    let mut ctx = ResultContext::new();
    let _ = DbResult::from_error(&mut ids, &mut ctx, &chain(&["x"], None));
    assert!(ctx.last_result().is_some());
    ctx.begin_catch();
    assert!(ctx.last_result().is_none());
}

#[test]
fn last_result_hides_text_of_non_errors() {
    let mut ids = ErrorIds::new();
    let mut ctx = ResultContext::new();
    ctx.begin_catch();
    let _ = DbResult::internal_error(&mut ids).context(&mut ctx, &chain(&["first"], None));
    // The call attached text to an error but then returned success.
    let r = DbResult::catch(&mut ids, &mut ctx, CallOutcome::Returned(DbResult::ok()));
    assert!(r.is_ok());
    let (value, msg) = ctx.last_result().unwrap();
    assert!(value.is_ok());
    assert_eq!(msg, None);
}

#[test]
fn with_last_result_hands_over_the_report() {
    let mut ids = ErrorIds::new();
    let mut ctx = ResultContext::new();
    let _ = DbResult::from_error(&mut ids, &mut ctx, &chain(&["bad"], None));
    let len = ctx.with_last_result(|r| r.and_then(|(_, m)| m).map(|m| m.len()));
    assert_eq!(len, Some(5));
}

#[test]
fn db_last_result_with_nothing_recorded() {
    let mut ids = ErrorIds::new();
    let mut ctx = ResultContext::new();
    let mut buf = [9u8; 4];
    let mut len = 77usize;
    let mut result = DbResult::done();
    let r = db_last_result(&mut ids, &ctx, &mut buf, &mut len, &mut result);
    assert!(r.is_ok());
    assert!(result.is_ok());
    assert_eq!(len, 0);
    assert_eq!(buf, [9u8; 4]);
}

#[test]
fn db_last_result_copies_message_that_fits() {
    let mut ids = ErrorIds::new();
    let mut ctx = ResultContext::new();
    let e = DbResult::from_error(&mut ids, &mut ctx, &chain(&["abc"], None));
    let mut buf = [0u8; 8];
    let mut len = 0usize;
    let mut result = DbResult::ok();
    let r = db_last_result(&mut ids, &ctx, &mut buf, &mut len, &mut result);
    assert!(r.is_ok());
    assert_eq!(result, e);
    assert_eq!(len, 5);
    assert_eq!(&buf[..5], b"abc.\n");
    assert_eq!(&buf[5..], &[0u8, 0, 0]);
}

#[test]
fn db_last_result_reports_buffer_too_small() {
    let mut ids = ErrorIds::new();
    let mut ctx = ResultContext::new();
    let e = DbResult::from_error(&mut ids, &mut ctx, &chain(&["abcdef"], None));
    let mut buf = [1u8; 3];
    let mut len = 0usize;
    let mut result = DbResult::ok();
    let r = db_last_result(&mut ids, &ctx, &mut buf, &mut len, &mut result);
    assert!(r.is_buffer_too_small());
    assert_eq!(result, e);
    assert_eq!(len, 8);
    assert_eq!(buf, [1u8; 3]);
    // The error took the next id.
    assert_eq!(next_err_id(&mut ids), 2);
}

#[test]
fn db_last_result_of_ok_has_no_message() {
    let mut ids = ErrorIds::new();
    let mut ctx = ResultContext::new();
    ctx.begin_catch();
    let _ = DbResult::catch(&mut ids, &mut ctx, CallOutcome::Returned(DbResult::done()));
    let mut buf = [3u8; 2];
    let mut len = 5usize;
    let mut result = DbResult::ok();
    let r = db_last_result(&mut ids, &ctx, &mut buf, &mut len, &mut result);
    assert!(r.is_ok());
    assert!(result.is_done());
    assert_eq!(len, 0);
    assert_eq!(buf, [3u8; 2]);
}

#[test]
fn read_step_entry_then_ok() {
    let mut ids = ErrorIds::new();
    let mut ctx = ResultContext::new();
    let s = next_read_step(&mut ids, &mut ctx, ReadStep::ReadCurrent, ReadEvent::Current(Some(DbResult::ok())));
    assert!(matches!(s, ReadStep::AdvanceAfterEntry));
    let s = next_read_step(&mut ids, &mut ctx, s, ReadEvent::Advanced(Ok(false)));
    match s {
        ReadStep::Finish(r) => assert!(r.is_ok()),
        _ => panic!("expected a finished read"),
    }
}

#[test]
fn read_step_failed_read_ends() {
    let mut ids = ErrorIds::new();
    let mut ctx = ResultContext::new();
    let e = DbResult::buffer_too_small(&mut ids);
    let s = next_read_step(&mut ids, &mut ctx, ReadStep::ReadCurrent, ReadEvent::Current(Some(e)));
    match s {
        ReadStep::Finish(r) => assert_eq!(r, e),
        _ => panic!("expected a finished read"),
    }
}

#[test]
fn read_step_gap_then_more_then_done() {
    let mut ids = ErrorIds::new();
    let mut ctx = ResultContext::new();
    let s = next_read_step(&mut ids, &mut ctx, ReadStep::ReadCurrent, ReadEvent::Current(None));
    assert!(matches!(s, ReadStep::AdvancePastGap));
    let s = next_read_step(&mut ids, &mut ctx, s, ReadEvent::Advanced(Ok(true)));
    assert!(matches!(s, ReadStep::ReadCurrent));
    let s = next_read_step(&mut ids, &mut ctx, s, ReadEvent::Current(None));
    let s = next_read_step(&mut ids, &mut ctx, s, ReadEvent::Advanced(Ok(false)));
    match s {
        ReadStep::Finish(r) => assert!(r.is_done()),
        _ => panic!("expected a finished read"),
    }
}

#[test]
fn read_step_move_failure_is_recorded() {
    let mut ids = ErrorIds::new();
    let mut ctx = ResultContext::new();
    let s = next_read_step(
        &mut ids,
        &mut ctx,
        ReadStep::AdvanceAfterEntry,
        ReadEvent::Advanced(Err(chain(&["cursor lost"], None))),
    );
    match s {
        ReadStep::Finish(r) => {
            assert!(r.is_internal_error());
            assert_eq!(ctx.last_result().unwrap().0, r);
        }
        _ => panic!("expected a finished read"),
    }
    assert_eq!(last_message(&ctx), Some("cursor lost.\n".to_string()));
}

#[test]
fn shared_handle_holds_its_value() {
    let h = HandleShared::allocate(41u32);
    assert_eq!(*h.as_ref(), 41);
    let out = HandleShared::dealloc(h, |v| v + 1);
    assert_eq!(out, 42);
}

#[test]
fn exclusive_handle_changes_in_place() {
    let mut h = HandleExclusive::allocate(vec![1u8], 7);
    assert_eq!(h.bound_thread(), 7);
    h.as_mut(7).push(2);
    *h.as_mut(7) = vec![7, 8, 9];
    let len = HandleExclusive::dealloc(h, |v| v.len());
    assert_eq!(len, 3);
}

#[test]
fn params_read_and_write_through() {
    let data = [5u8, 6, 7];
    let r = Ref { items: &data[..] };
    assert_eq!(*r.as_ref(), 5);
    assert_eq!(r.as_bytes(2), &[5u8, 6]);

    let mut target = [0u8; 4];
    {
        let mut m = RefMut { items: &mut target[..] };
        *m.as_mut() = 9;
        m.as_bytes_mut(3)[2] = 4;
    }
    assert_eq!(target, [9, 0, 4, 0]);

    let mut slots = [0u8; 5];
    {
        let mut o = Out { slots: &mut slots[..] };
        o.init_bytes(b"hey");
        o.as_uninit_bytes_mut(4)[3] = 1;
    }
    assert_eq!(slots, [b'h', b'e', b'y', 1, 0]);

    let mut key = [DbKey([0; 16])];
    {
        let mut o = Out { slots: &mut key[..] };
        o.init(DbKey([3; 16]));
    }
    assert_eq!(key[0].0, [3u8; 16]);
}

#[test]
fn ids_are_shared_across_contexts() {
    let mut ids = ErrorIds::new();
    let mut first = ResultContext::new();
    let mut second = ResultContext::new();
    let a = DbResult::from_error(&mut ids, &mut first, &chain(&["a"], None));
    let b = DbResult::from_error(&mut ids, &mut second, &chain(&["b"], None));
    assert_ne!(a, b);
    assert_eq!(last_message(&first), Some("a.\n".to_string()));
    assert_eq!(last_message(&second), Some("b.\n".to_string()));
}

#[test]
fn context_text_is_kept_until_next_write() {
    let mut ids = ErrorIds::new();
    let mut ctx = ResultContext::new();
    let e = DbResult::argument_null(&mut ids).context(&mut ctx, &chain(&["null"], None));
    let _ = DbResult::internal_error(&mut ids);
    let mut buf = [0u8; 16];
    let mut len = 0usize;
    let mut result = DbResult::ok();
    let _ = db_last_result(&mut ids, &ctx, &mut buf, &mut len, &mut result);
    assert_eq!(ctx.with_last_result(|r| r.map(|(v, m)| (v, m.map(|m| m.to_string())))), Some((e, Some("null.\n".to_string()))));
}

#[test]
fn results_expose_kind_and_id() {
    let mut ids = ErrorIds::new();
    let _ = DbResult::internal_error(&mut ids);
    let e = DbResult::argument_null(&mut ids);
    assert_eq!(e.kind_value(), native_db::Kind::ArgumentNull);
    assert_eq!(e.error_id(), 1);
    assert_eq!(DbResult::done().kind_value(), native_db::Kind::Done);
    assert_eq!(DbResult::ok().error_id(), 0);
}
