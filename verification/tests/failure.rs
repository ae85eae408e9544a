//! Construction, accessors, the macro-no-op signal, and chaining.

use glsp_errors::{Cause, Ctx, GError, Val};

fn quiet_ctx() -> Ctx {
    Ctx {
        base_location: None,
        trace_lines: vec![],
        verbose: false,
        in_expander: false,
        frames: vec![],
    }
}

#[test]
fn from_val_is_never_a_signal() {
    let ctx = quiet_ctx();
    assert!(!GError::from_val(&ctx, Val::Nil).is_macro_no_op());
    assert!(!GError::from_val(&ctx, Val::Bool(true)).is_macro_no_op());
    assert!(!GError::from_val(&ctx, "boom").is_macro_no_op());
}

#[test]
fn from_val_payload_round_trips() {
    let ctx = quiet_ctx();
    let e = GError::from_val(&ctx, Val::Text("oops".to_string()));
    assert_eq!(e.val(), Val::Text("oops".to_string()));
    let e = GError::from_val(&ctx, Val::Bool(false));
    assert_eq!(e.val(), Val::Bool(false));
    let e = GError::from_val(&ctx, "plain text");
    assert_eq!(e.val(), Val::Text("plain text".to_string()));
    let e = GError::from_val(&ctx, String::from("owned"));
    assert_eq!(e.val(), Val::Text("owned".to_string()));
}

#[test]
fn failed_conversion_degrades_to_nil() {
    let ctx = quiet_ctx();
    let bad: Result<Val, GError> = Err(GError::from_str(&ctx, "inner"));
    let e = GError::from_val(&ctx, bad);
    assert!(!e.is_macro_no_op());
    assert_eq!(e.val(), Val::Nil);
}

#[test]
fn ok_conversion_keeps_its_value() {
    let ctx = quiet_ctx();
    let good: Result<Val, GError> = Ok(Val::Text("kept".to_string()));
    let e = GError::from_val(&ctx, good);
    assert_eq!(e.val(), Val::Text("kept".to_string()));
}

#[test]
fn new_carries_the_generic_message() {
    let ctx = quiet_ctx();
    let e = GError::new(&ctx);
    assert!(!e.is_macro_no_op());
    assert_eq!(
        e.val(),
        Val::Text("explicit call to bail!, error!, or GError::new".to_string())
    );
}

#[test]
fn macro_no_op_inside_expander_is_a_signal() {
    let mut ctx = quiet_ctx();
    ctx.in_expander = true;
    let e = GError::macro_no_op(&ctx);
    assert!(e.is_macro_no_op());
}

#[test]
fn macro_no_op_outside_expander_degrades() {
    let ctx = quiet_ctx();
    let e = GError::macro_no_op(&ctx);
    assert!(!e.is_macro_no_op());
    assert_eq!(
        e.val(),
        Val::Text("(macro-no-op) called outside of any macro expander".to_string())
    );
}

#[test]
fn trace_captured_only_under_verbose() {
    let mut ctx = quiet_ctx();
    ctx.trace_lines = vec!["frame1".to_string(), "frame2".to_string()];
    let quiet = GError::from_str(&ctx, "boom");
    assert!(quiet.stack_trace().is_none());
    ctx.verbose = true;
    let loud = GError::from_str(&ctx, "boom");
    assert_eq!(
        loud.stack_trace(),
        Some(&vec!["frame1".to_string(), "frame2".to_string()])
    );
}

#[test]
fn toggling_verbose_later_does_not_backfill_trace() {
    let mut ctx = quiet_ctx();
    ctx.trace_lines = vec!["frame1".to_string()];
    let e = GError::from_str(&ctx, "boom");
    assert!(e.stack_trace().is_none());
    ctx.verbose = true;
    // The failure was constructed under verbose=false; enabling verbose
    // afterwards must not retroactively populate its trace.
    assert!(e.stack_trace().is_none());
}

#[test]
fn defer_chain_preserves_temporal_order() {
    let ctx = quiet_ctx();
    let mut f1 = GError::from_str(&ctx, "first");
    let f2 = GError::from_str(&ctx, "second");
    let f3 = GError::from_str(&ctx, "third");
    f1.chain_defer_error(f2);
    f1.chain_defer_error(f3);
    assert_eq!(f1.val(), Val::Text("first".to_string()));
    let d1 = f1.defer_chain().expect("first deferred failure");
    assert_eq!(d1.val(), Val::Text("second".to_string()));
    let d2 = d1.defer_chain().expect("second deferred failure");
    assert_eq!(d2.val(), Val::Text("third".to_string()));
    assert!(d2.defer_chain().is_none());
}

#[test]
fn defer_chain_replaces_a_signal() {
    let mut ctx = quiet_ctx();
    ctx.in_expander = true;
    let mut signal = GError::macro_no_op(&ctx);
    assert!(signal.is_macro_no_op());
    let replacement = GError::from_str(&ctx, "real failure");
    signal.chain_defer_error(replacement);
    assert!(!signal.is_macro_no_op());
    assert_eq!(signal.val(), Val::Text("real failure".to_string()));
    assert!(signal.defer_chain().is_none());
}

#[test]
fn deferred_signal_is_replaced_by_a_later_failure() {
    let mut ctx = quiet_ctx();
    ctx.in_expander = true;
    let mut f1 = GError::from_str(&ctx, "first");
    // Chaining the signal leaves it at the tail of the chain; a genuine
    // failure chained afterwards takes its place.
    f1.chain_defer_error(GError::macro_no_op(&ctx));
    f1.chain_defer_error(GError::from_str(&ctx, "second"));
    let d = f1.defer_chain().expect("deferred failure");
    assert!(!d.is_macro_no_op());
    assert_eq!(d.val(), Val::Text("second".to_string()));
    assert!(d.defer_chain().is_none());
}

#[test]
fn source_exposes_the_wrapped_cause() {
    let ctx = quiet_ctx();
    let plain = GError::from_str(&ctx, "boom");
    assert!(plain.source().is_none());
    let e = plain.with_source(Cause::Host { text: "io failure".to_string(), cause: None });
    match e.source() {
        Some(Cause::Host { text, cause }) => {
            assert_eq!(text, "io failure");
            assert!(cause.is_none());
        }
        _ => panic!("expected a host-level cause"),
    }
}

#[test]
fn is_macro_no_op_is_safe_on_both_variants() {
    let mut ctx = quiet_ctx();
    assert!(!GError::from_str(&ctx, "x").is_macro_no_op());
    ctx.in_expander = true;
    assert!(GError::macro_no_op(&ctx).is_macro_no_op());
}
