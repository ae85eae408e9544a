//! Presentation: deterministic rendering of failures, and the span-scoped
//! constructors that decide which location a rendering shows.

use glsp_errors::{Cause, Ctx, GError, Span, Val};

fn quiet_ctx() -> Ctx {
    Ctx {
        base_location: None,
        trace_lines: vec![],
        verbose: false,
        in_expander: false,
        frames: vec![],
    }
}

fn verbose_ctx(lines: &[&str]) -> Ctx {
    Ctx {
        base_location: None,
        trace_lines: lines.iter().map(|s| s.to_string()).collect(),
        verbose: true,
        in_expander: false,
        frames: vec![],
    }
}

#[test]
fn renders_payload_only_without_diagnostics() {
    let ctx = quiet_ctx();
    let e = GError::from_str(&ctx, "out of range");
    assert_eq!(e.to_text(), "\"out of range\"");
}

#[test]
fn renders_location_prefix_without_trace() {
    let mut ctx = quiet_ctx();
    ctx.base_location = Some("script.glsp:12".to_string());
    let e = GError::from_str(&ctx, "out of range");
    assert_eq!(e.to_text(), "script.glsp:12: \"out of range\"");
}

#[test]
fn renders_trace_and_wrapped_cause() {
    let ctx = verbose_ctx(&["frame1", "frame2"]);
    let e = GError::from_str(&ctx, "boom").with_source(Cause::Host {
        text: "io failure".to_string(),
        cause: None,
    });
    let text = e.to_text();
    assert_eq!(
        text,
        "stack trace:\n    frame1\n    frame2\n\nerrors:\n    \"boom\"\n    io failure"
    );
    assert!(text.contains("    frame1\n"));
    assert!(text.contains("errors:"));
    assert!(text.contains("    \"boom\""));
    assert!(text.contains("    io failure"));
}

#[test]
fn renders_single_error_line_without_cause() {
    let ctx = verbose_ctx(&["frame1"]);
    let e = GError::from_str(&ctx, "boom");
    assert_eq!(e.to_text(), "stack trace:\n    frame1\n\nerror: \"boom\"");
}

#[test]
fn renders_deep_cause_chain() {
    let ctx = verbose_ctx(&["frame1"]);
    let cause = Cause::Host {
        text: "outer cause".to_string(),
        cause: Some(Box::new(Cause::Host {
            text: "root cause".to_string(),
            cause: None,
        })),
    };
    let e = GError::from_str(&ctx, "boom").with_source(cause);
    assert_eq!(
        e.to_text(),
        "stack trace:\n    frame1\n\nerrors:\n    \"boom\"\n    outer cause\n    root cause"
    );
}

#[test]
fn runtime_cause_renders_by_payload_only() {
    let verbose = verbose_ctx(&["inner frame"]);
    // The cause is itself a runtime failure with a full trace of its own;
    // as a cause it contributes its payload's text only.
    let inner = GError::from_str(&verbose, "inner boom");
    let outer_ctx = verbose_ctx(&["frame1"]);
    let e = GError::from_str(&outer_ctx, "boom").with_source(Cause::Runtime(inner));
    assert_eq!(
        e.to_text(),
        "stack trace:\n    frame1\n\nerrors:\n    \"boom\"\n    \"inner boom\""
    );
}

#[test]
fn second_wrapped_cause_overwrites_the_first() {
    let ctx = verbose_ctx(&["frame1"]);
    let e = GError::from_str(&ctx, "boom")
        .with_source(Cause::Host { text: "first cause".to_string(), cause: None })
        .with_source(Cause::Host { text: "second cause".to_string(), cause: None });
    let text = e.to_text();
    assert!(!text.contains("first cause"));
    assert_eq!(
        text,
        "stack trace:\n    frame1\n\nerrors:\n    \"boom\"\n    second cause"
    );
}

#[test]
fn deferred_failure_renders_in_separate_section() {
    let ctx = verbose_ctx(&["frame1"]);
    let mut e = GError::from_str(&ctx, "boom");
    let quiet = quiet_ctx();
    e.chain_defer_error(GError::from_str(&quiet, "cleanup failed"));
    assert_eq!(
        e.to_text(),
        "stack trace:\n    frame1\n\nerror: \"boom\"\n\n\
         while this error was unwinding, a (defer) form also failed:\n\n\
         \"cleanup failed\""
    );
}

#[test]
fn rendering_is_deterministic() {
    let ctx = verbose_ctx(&["frame1", "frame2"]);
    let mut e = GError::from_str(&ctx, "boom").with_source(Cause::Host {
        text: "io failure".to_string(),
        cause: None,
    });
    e.chain_defer_error(GError::from_str(&quiet_ctx(), "cleanup failed"));
    assert_eq!(e.to_text(), e.to_text());
}

#[test]
fn span_constructor_attributes_the_location() {
    let mut ctx = quiet_ctx();
    ctx.base_location = Some("ambient.glsp:1".to_string());
    let e = GError::from_str_at(
        &mut ctx,
        Span { text: "script.glsp:12".to_string() },
        "out of range",
    );
    assert_eq!(e.to_text(), "script.glsp:12: \"out of range\"");
    // The temporary error-at frame is removed again on every path.
    assert!(ctx.frames.is_empty());
    // Construction without a span falls back to the ambient location.
    let plain = GError::from_str(&ctx, "out of range");
    assert_eq!(plain.to_text(), "ambient.glsp:1: \"out of range\"");
}

#[test]
fn span_constructor_variants_share_the_discipline() {
    let mut ctx = quiet_ctx();
    let e = GError::new_at(&mut ctx, Span { text: "here.glsp:3".to_string() });
    assert_eq!(
        e.to_text(),
        "here.glsp:3: \"explicit call to bail!, error!, or GError::new\""
    );
    assert!(ctx.frames.is_empty());
    let e = GError::from_val_at(
        &mut ctx,
        Span { text: "there.glsp:4".to_string() },
        Val::Bool(true),
    );
    assert_eq!(e.to_text(), "there.glsp:4: #t");
    assert!(ctx.frames.is_empty());
}

#[test]
fn shallow_form_renders_despite_a_signal_tail() {
    let mut ctx = quiet_ctx();
    ctx.in_expander = true;
    let mut e = GError::from_str(&ctx, "boom");
    // The shallow (no-trace) form prints the payload alone and never
    // walks the deferred chain, so a signal at its tail is harmless.
    e.chain_defer_error(GError::macro_no_op(&ctx));
    assert_eq!(e.to_text(), "\"boom\"");
}

#[test]
fn empty_trace_still_renders_the_full_form() {
    let ctx = verbose_ctx(&[]);
    let e = GError::from_str(&ctx, "boom");
    assert_eq!(e.to_text(), "stack trace:\n\nerror: \"boom\"");
}

#[test]
fn nil_and_bool_payloads_render_structurally() {
    let ctx = quiet_ctx();
    assert_eq!(GError::from_val(&ctx, Val::Nil).to_text(), "#n");
    assert_eq!(GError::from_val(&ctx, Val::Bool(false)).to_text(), "#f");
}
