//! Error-and-signal propagation for an embedded Lisp-like interpreter.
//!
//! A [`GError`](error::GError) is the value carried through the interpreter's
//! fallible operations.  It is either an ordinary failure, holding a payload
//! value together with optional diagnostics and optional chained failures, or
//! the macro-no-op signal, a non-error control value that macro expanders send
//! through the same channel.

mod ctx;
mod error;
mod val;

pub use ctx::{Ctx, Frame, Span};
pub use error::{Cause, FailData, GError, GResult, NodeModel, Payload};
pub use error::{
    cause_texts, cause_wf, chain_model, failure_nodes, fresh_model, head_data, head_defer,
    head_source, indented_lines, render_head, render_nodes, renderable, sources_text, wf_nodes,
    with_source_model,
};
pub use error::{
    lemma_defer_chain_order, lemma_defer_chain_replaces_signal, lemma_fresh_failure_is_ordinary,
    lemma_no_trace_renderable, lemma_nodes_wf, lemma_render_depends_only_on_value,
    lemma_trace_gated_by_verbose,
};
pub use val::{converted_or_nil, val_text, IntoVal, Val, ValModel};
