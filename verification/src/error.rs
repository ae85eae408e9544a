//! The failure value itself: construction, accessors, chaining, rendering.
//!
//! A `GError` is either an ordinary failure or the macro-no-op signal.  An
//! ordinary failure owns a payload, optional diagnostics captured at
//! construction time, an optional chain of deferred failures (failures that
//! arose while this one was unwinding) and an optional wrapped cause (a
//! host-level failure underneath this one).
//!
//! Contracts speak of a failure through its view: the sequence of nodes of
//! its deferred chain, head first, each node carrying what that link owns.

use crate::ctx::{Ctx, Frame, Span};
use crate::val::{converted_or_nil, val_text, IntoVal, Val, ValModel};
use vstd::prelude::*;

verus! {

/// What one link of a deferred chain owns, mathematically.
pub struct FailData {
    pub val: ValModel,
    pub location: Option<Seq<char>>,
    pub trace: Option<Seq<Seq<char>>>,
    /// The texts of the wrapped-cause chain, outermost first, as rendering
    /// prints them; `None` where no cause is attached.
    pub source: Option<Seq<Seq<char>>>,
}

/// One node of a failure's deferred chain: an ordinary link or the signal.
pub enum NodeModel {
    Signal,
    Fail(FailData),
}

/// The error type generated by interpreted code.
///
/// The macro-no-op signal is represented by a special kind of `GError` which
/// generic error-catching constructs must not intercept: they re-check
/// `is_macro_no_op` and re-raise rather than swallow it.
pub struct GError {
    pub payload: Box<Payload>,
}

/// The two variants a `GError` can hold.
pub enum Payload {
    Error {
        val: Val,
        file_location: Option<String>,
        stack_trace: Option<Vec<String>>,
        defer_chain: Option<GError>,
        source: Option<Box<Cause>>,
    },
    MacroNoOp,
}

/// A wrapped cause: the host-level failure underneath a runtime failure.
/// A cause is either a plain host error, which may expose a deeper cause of
/// its own, or one of this runtime's own failures.
pub enum Cause {
    Host { text: String, cause: Option<Box<Cause>> },
    Runtime(GError),
}

/// The payload of a failure's head link; meaningless for the signal.
pub open spec fn head_val(f: GError) -> ValModel {
    match *f.payload {
        Payload::Error { val, .. } => val@,
        Payload::MacroNoOp => ValModel::Nil,
    }
}

/// The wrapped cause of a failure's head link, if any.
pub open spec fn head_source(f: GError) -> Option<Cause> {
    match *f.payload {
        Payload::Error { source: Some(b), .. } => Some(*b),
        _ => None,
    }
}

/// The deferred failure stored directly under a failure's head link.
pub open spec fn head_defer(f: GError) -> Option<GError> {
    match *f.payload {
        Payload::Error { defer_chain: Some(d), .. } => Some(d),
        _ => None,
    }
}

/// The texts a wrapped-cause chain prints, outermost first.  A cause that is
/// itself a runtime failure contributes its payload's text only, never its
/// own trace, and the chain continues with that failure's own cause.
pub open spec fn cause_texts(c: Cause) -> Seq<Seq<char>>
    decreases c,
{
    match c {
        Cause::Host { text, cause } => seq![text@] + match cause {
            Some(b) => cause_texts(*b),
            None => Seq::empty(),
        },
        Cause::Runtime(e) => seq![val_text(head_val(e))] + match head_source(e) {
            Some(c2) => cause_texts(c2),
            None => Seq::empty(),
        },
    }
}

impl View for Cause {
    type V = Seq<Seq<char>>;

    open spec fn view(&self) -> Seq<Seq<char>> {
        cause_texts(*self)
    }
}

/// The nodes of a failure's deferred chain, head first.
pub open spec fn failure_nodes(f: GError) -> Seq<NodeModel>
    decreases f,
{
    match *f.payload {
        Payload::MacroNoOp => seq![NodeModel::Signal],
        Payload::Error { val, file_location, stack_trace, defer_chain, source } => seq![
            NodeModel::Fail(
                FailData {
                    val: val@,
                    location: match file_location {
                        Some(s) => Some(s@),
                        None => None,
                    },
                    trace: match stack_trace {
                        Some(v) => Some(v.deep_view()),
                        None => None,
                    },
                    source: match source {
                        Some(b) => Some(cause_texts(*b)),
                        None => None,
                    },
                },
            ),
        ] + match defer_chain {
            Some(d) => failure_nodes(d),
            None => Seq::empty(),
        },
    }
}

impl View for GError {
    type V = Seq<NodeModel>;

    open spec fn view(&self) -> Seq<NodeModel> {
        failure_nodes(*self)
    }
}

/// The one chain shape construction can produce: at least one node, and only
/// the last node may be the signal (a signal has no deferred chain of its
/// own, so it can only ever stand at the tail).
pub open spec fn wf_nodes(a: Seq<NodeModel>) -> bool {
    &&& a.len() >= 1
    &&& forall|i: int| 0 <= i < a.len() - 1 ==> a[i] is Fail
}

/// Every failure's view is a well-formed chain.
pub proof fn lemma_nodes_wf(f: GError)
    ensures
        wf_nodes(f@),
    decreases f,
{
    match *f.payload {
        Payload::MacroNoOp => {},
        Payload::Error { defer_chain, .. } => {
            match defer_chain {
                Some(d) => {
                    lemma_nodes_wf(d);
                    assert(forall|i: int| 0 <= i < f@.len() - 1 ==> f@[i] is Fail) by {
                        assert(forall|i: int| 1 <= i < f@.len() ==> f@[i] == d@[i - 1]);
                    }
                },
                None => {},
            }
        },
    }
}

/// The view of a failure freshly made by the primary constructors.
pub open spec fn fresh_model(
    v: ValModel,
    loc: Option<Seq<char>>,
    tr: Option<Seq<Seq<char>>>,
) -> Seq<NodeModel> {
    seq![NodeModel::Fail((FailData { val: v, location: loc, trace: tr, source: None }))]
}

impl GError {
    /// Whether this value is the macro-no-op signal.
    pub open spec fn is_signal(self) -> bool {
        *self.payload is MacroNoOp
    }

    /// An ordinary failure with the fixed generic message, used when no
    /// structured payload is supplied.
    pub fn new(ctx: &Ctx) -> (r: GError)
        ensures
            r@ == fresh_model(
                ValModel::Text("explicit call to bail!, error!, or GError::new"@),
                ctx.location_model(),
                ctx.captured_trace(),
            ),
            !r.is_signal(),
            renderable(r),
    {
        GError::from_str(ctx, "explicit call to bail!, error!, or GError::new")
    }

    /// An ordinary failure whose payload is the given text.
    pub fn from_str(ctx: &Ctx, st: &str) -> (r: GError)
        ensures
            r@ == fresh_model(ValModel::Text(st@), ctx.location_model(), ctx.captured_trace()),
            !r.is_signal(),
            renderable(r),
    {
        GError::from_val(ctx, st)
    }

    /// An ordinary failure whose payload is the conversion of `t`; a failed
    /// conversion degrades to a `Nil` payload rather than erroring again.
    /// Diagnostic capture happens here, synchronously and exactly once: the
    /// location is whatever the context attributes now, and a trace is taken
    /// exactly when verbose diagnostics are enabled now.
    pub fn from_val<T: IntoVal>(ctx: &Ctx, t: T) -> (r: GError)
        ensures
            r@ == fresh_model(converted_or_nil(t), ctx.location_model(), ctx.captured_trace()),
            !r.is_signal(),
            renderable(r),
    {
        let val = match t.into_val() {
            Some(v) => v,
            None => Val::Nil,
        };
        let file_location = ctx.file_location();
        let stack_trace = if ctx.verbose {
            Some(ctx.stack_trace())
        } else {
            None
        };
        let r = GError {
            payload: Box::new(
                Payload::Error { val, file_location, stack_trace, defer_chain: None, source: None },
            ),
        };
        proof {
            assert(r@ =~= fresh_model(
                converted_or_nil(t),
                ctx.location_model(),
                ctx.captured_trace(),
            ));
        }
        r
    }

    /// The macro-no-op signal, legal only inside a macro expander.  Outside
    /// one, the request degrades to an ordinary failure naming the misuse,
    /// never a crash and never silence.
    pub fn macro_no_op(ctx: &Ctx) -> (r: GError)
        ensures
            r.is_signal() == ctx.in_expander,
            ctx.in_expander ==> r@ == seq![NodeModel::Signal],
            !ctx.in_expander ==> r@ == fresh_model(
                ValModel::Text("(macro-no-op) called outside of any macro expander"@),
                ctx.location_model(),
                ctx.captured_trace(),
            ),
            !ctx.in_expander ==> renderable(r),
    {
        if ctx.in_expander {
            GError { payload: Box::new(Payload::MacroNoOp) }
        } else {
            GError::from_str(ctx, "(macro-no-op) called outside of any macro expander")
        }
    }

    /// Whether this error is the macro-no-op signal; safe on either variant.
    pub fn is_macro_no_op(&self) -> (r: bool)
        ensures
            r == self.is_signal(),
            r == (self@[0] is Signal),
    {
        match &*self.payload {
            Payload::MacroNoOp => true,
            Payload::Error { .. } => false,
        }
    }

    /// The error's payload.  Calling this on the signal is a contract
    /// violation, so the signal is excluded outright.
    pub fn val(&self) -> (r: Val)
        requires
            !self.is_signal(),
        ensures
            r@ == head_data(*self).val,
    {
        match &*self.payload {
            Payload::Error { val, .. } => val.clone(),
            Payload::MacroNoOp => vstd::pervasive::unreached(),
        }
    }

    /// The error's saved stack trace: present exactly where verbose
    /// diagnostics were enabled when the error was constructed.  Calling
    /// this on the signal is a contract violation.
    pub fn stack_trace(&self) -> (r: Option<&Vec<String>>)
        requires
            !self.is_signal(),
        ensures
            match r {
                Some(v) => head_data(*self).trace == Some(v.deep_view()),
                None => head_data(*self).trace is None,
            },
    {
        match &*self.payload {
            Payload::Error { stack_trace, .. } => stack_trace.as_ref(),
            Payload::MacroNoOp => vstd::pervasive::unreached(),
        }
    }

    /// The deferred failure chained under this one, if any.  Calling this on
    /// the signal is a contract violation.
    pub fn defer_chain(&self) -> (r: Option<&GError>)
        requires
            !self.is_signal(),
        ensures
            match r {
                Some(d) => head_defer(*self) == Some(*d) && self@.len() > 1 && d@
                    == self@.drop_first(),
                None => head_defer(*self) is None && self@.len() == 1,
            },
    {
        match &*self.payload {
            Payload::Error { defer_chain, .. } => {
                match defer_chain {
                    Some(d) => {
                        proof {
                            assert(d@ =~= self@.drop_first());
                        }
                        Some(d)
                    },
                    None => None,
                }
            },
            Payload::MacroNoOp => vstd::pervasive::unreached(),
        }
    }
}

/// What deferred chaining does to a chain, at the level of views: a chain
/// whose head is the signal is replaced outright by the new failure; any
/// other chain gets the new failure's nodes appended at its tail, where a
/// trailing signal (itself only reachable by chaining a signal earlier) is
/// likewise replaced.
pub open spec fn chain_model(a: Seq<NodeModel>, b: Seq<NodeModel>) -> Seq<NodeModel> {
    if a.len() > 0 && a[0] is Signal {
        b
    } else if a.len() > 0 && a.last() is Signal {
        a.drop_last() + b
    } else {
        a + b
    }
}

impl GError {
    /// Appends `defer_error` at the tail of this failure's deferred chain,
    /// preserving temporal order; a signal is replaced outright, since a
    /// real failure always takes precedence over a no-op signal.
    pub fn chain_defer_error(&mut self, defer_error: GError)
        ensures
            final(self)@ == chain_model(old(self)@, defer_error@),
            old(self).is_signal() ==> *final(self) == defer_error,
            renderable(*old(self)) && renderable(defer_error) ==> renderable(*final(self)),
    {
        let mut tmp = GError { payload: Box::new(Payload::MacroNoOp) };
        core::mem::swap(self, &mut tmp);
        *self = tmp.defer_chained(defer_error);
    }

    /// The owned form of deferred chaining: walks to the tail of the
    /// existing chain and appends there.  The walk recurses, one call per
    /// link; a chain holds one link per cleanup failure met while an error
    /// unwinds, so its depth is bounded by the nesting of cleanup blocks.
    fn defer_chained(self, defer_error: GError) -> (r: GError)
        ensures
            r@ == chain_model(self@, defer_error@),
            self.is_signal() ==> r == defer_error,
            renderable(self) && renderable(defer_error) ==> renderable(r),
        decreases self@.len(),
    {
        proof {
            lemma_nodes_wf(self);
        }
        let ghost old_self = self;
        match *self.payload {
            Payload::MacroNoOp => defer_error,
            Payload::Error { val, file_location, stack_trace, defer_chain, source } => {
                let new_chain = match defer_chain {
                    None => defer_error,
                    Some(d) => {
                        let ghost gd = d;
                        proof {
                            lemma_nodes_wf(d);
                        }
                        let nc = d.defer_chained(defer_error);
                        proof {
                            assert(old_self@.drop_first() =~= gd@);
                            assert(wf_nodes(old_self@.drop_first()));
                            assert(nc@ == chain_model(old_self@.drop_first(), defer_error@));
                        }
                        nc
                    },
                };
                let r = GError {
                    payload: Box::new(
                        Payload::Error {
                            val,
                            file_location,
                            stack_trace,
                            defer_chain: Some(new_chain),
                            source,
                        },
                    ),
                };
                proof {
                    lemma_chain_step(old_self@, new_chain@, defer_error@, r@);
                }
                r
            },
        }
    }

    /// Attaches a host-level failure as this failure's direct cause.  A
    /// second call overwrites the first: a failure carries exactly one
    /// wrapped cause, set once by the code converting the foreign failure.
    /// Calling this on the signal is a contract violation.
    pub fn with_source(self, source_to_add: Cause) -> (r: GError)
        requires
            !self.is_signal(),
        ensures
            r@ == with_source_model(self@, source_to_add@),
            !r.is_signal(),
            head_source(r) == Some(source_to_add),
            head_defer(r) == head_defer(self),
            renderable(self) && cause_wf(source_to_add) ==> renderable(r),
    {
        let ghost g = self;
        match *self.payload {
            Payload::Error { val, file_location, stack_trace, defer_chain, source: _ } => {
                let r = GError {
                    payload: Box::new(
                        Payload::Error {
                            val,
                            file_location,
                            stack_trace,
                            defer_chain,
                            source: Some(Box::new(source_to_add)),
                        },
                    ),
                };
                proof {
                    assert(r@ =~= with_source_model(g@, source_to_add@));
                }
                r
            },
            Payload::MacroNoOp => vstd::pervasive::unreached(),
        }
    }
}

/// What attaching a wrapped cause does to a chain's view: only the head
/// link's cause texts change, to exactly the new cause's texts.
pub open spec fn with_source_model(a: Seq<NodeModel>, texts: Seq<Seq<char>>) -> Seq<NodeModel> {
    match a[0] {
        NodeModel::Fail(d) => seq![
            NodeModel::Fail(
                FailData { val: d.val, location: d.location, trace: d.trace, source: Some(texts) },
            ),
        ] + a.drop_first(),
        NodeModel::Signal => a,
    }
}

/// Rebuilding a link above a chained tail yields the chained whole: the
/// inductive step behind `chain_defer_error`'s contract.
proof fn lemma_chain_step(
    a: Seq<NodeModel>,
    chained_tail: Seq<NodeModel>,
    b: Seq<NodeModel>,
    r: Seq<NodeModel>,
)
    requires
        wf_nodes(a),
        a[0] is Fail,
        r == seq![a[0]] + chained_tail,
        chained_tail == if a.len() > 1 {
            chain_model(a.drop_first(), b)
        } else {
            b
        },
        a.len() > 1 ==> wf_nodes(a.drop_first()),
    ensures
        r == chain_model(a, b),
{
    if a.len() == 1 {
        assert(r =~= a + b);
    } else {
        let t = a.drop_first();
        if t[0] is Signal {
            assert(t.len() == 1);
            assert(a.last() is Signal);
            assert(a.drop_last() =~= seq![a[0]]);
            assert(r =~= a.drop_last() + b);
        } else if t.last() is Signal {
            assert(a.last() is Signal);
            assert(r =~= seq![a[0]] + (t.drop_last() + b));
            assert(a.drop_last() =~= seq![a[0]] + t.drop_last());
            assert(r =~= a.drop_last() + b);
        } else {
            assert(!(a.last() is Signal));
            assert(r =~= a + b);
        }
    }
}

/// The trace section of a rendering: each line indented under the header.
pub open spec fn indented_lines(tr: Seq<Seq<char>>) -> Seq<char>
    decreases tr.len(),
{
    if tr.len() == 0 {
        Seq::empty()
    } else {
        indented_lines(tr.drop_last()) + "    "@ + tr.last() + "\n"@
    }
}

/// The wrapped-cause section of a rendering: each cause text on its own
/// indented line.
pub open spec fn sources_text(ts: Seq<Seq<char>>) -> Seq<char>
    decreases ts.len(),
{
    if ts.len() == 0 {
        Seq::empty()
    } else {
        "\n    "@ + ts[0] + sources_text(ts.drop_first())
    }
}

/// The text one link renders as, chosen by case on its two optional
/// diagnostics: payload only; location-prefixed payload; or, once a trace
/// exists, the full form with the trace and an errors section.
pub open spec fn render_head(d: FailData) -> Seq<char> {
    match (d.location, d.trace) {
        (Option::None, Option::None) => val_text(d.val),
        (Option::Some(loc), Option::None) => loc + ": "@ + val_text(d.val),
        (_, Option::Some(tr)) => "stack trace:\n"@ + indented_lines(tr) + match d.source {
            Option::Some(ts) => "\nerrors:"@ + "\n    "@ + val_text(d.val) + sources_text(ts),
            Option::None => "\nerror: "@ + val_text(d.val),
        },
    }
}

/// The text a whole chain renders as.  A deferred failure is announced in a
/// clearly separated section and rendered in full, recursively; the section
/// appears only in the full (trace-bearing) form.
pub open spec fn render_nodes(a: Seq<NodeModel>) -> Seq<char>
    decreases a.len(),
{
    if a.len() == 0 {
        Seq::empty()
    } else {
        match a[0] {
            NodeModel::Signal => Seq::empty(),
            NodeModel::Fail(d) => render_head(d) + if d.trace is Some && a.len() > 1 {
                "\n\nwhile this error was unwinding, a (defer) form also failed:\n\n"@
                    + render_nodes(a.drop_first())
            } else {
                Seq::empty()
            },
        }
    }
}

/// A cause chain that rendering can walk: every runtime failure in it is an
/// ordinary failure, since the signal has no payload to print.
pub open spec fn cause_wf(c: Cause) -> bool
    decreases c,
{
    match c {
        Cause::Host { cause, .. } => match cause {
            Some(b) => cause_wf(*b),
            None => true,
        },
        Cause::Runtime(e) => !e.is_signal() && match head_source(e) {
            Some(c2) => cause_wf(c2),
            None => true,
        },
    }
}

/// A failure that rendering accepts.  The signal itself is never rendered:
/// handlers re-raise it instead.  The shallow (no-trace) forms print the
/// payload alone and touch neither the cause chain nor the deferred chain,
/// so only the full, trace-bearing form asks that the cause chain be
/// walkable and the deferred failures renderable in turn.
pub open spec fn renderable(f: GError) -> bool
    decreases f,
{
    match *f.payload {
        Payload::MacroNoOp => false,
        Payload::Error { stack_trace, defer_chain, source, .. } => match stack_trace {
            None => true,
            Some(_) => {
                &&& match source {
                    Some(b) => cause_wf(*b),
                    None => true,
                }
                &&& match defer_chain {
                    Some(d) => renderable(d),
                    None => true,
                }
            },
        },
    }
}

/// An ordinary failure whose head link carries no trace renders in the
/// shallow form, whatever hangs underneath it: it is renderable, and its
/// view alone shows as much.
pub proof fn lemma_no_trace_renderable(f: GError)
    requires
        f@.len() > 0,
        (match f@[0] {
            NodeModel::Fail(d) => d.trace is None,
            NodeModel::Signal => false,
        }),
    ensures
        renderable(f),
{
    match *f.payload {
        Payload::MacroNoOp => {
            assert(f@ =~= seq![NodeModel::Signal]);
            assert(false);
        },
        Payload::Error { stack_trace, .. } => {
            match stack_trace {
                Some(v) => {
                    assert(match f@[0] {
                        NodeModel::Fail(d) => d.trace == Some(v.deep_view()),
                        NodeModel::Signal => false,
                    });
                    assert(false);
                },
                None => {},
            }
        },
    }
}

/// Appends the rendering of a wrapped-cause chain to `out`, one indented
/// line per cause text.
fn append_causes(c: &Cause, out: &mut String)
    requires
        cause_wf(*c),
    ensures
        final(out)@ == old(out)@ + sources_text(cause_texts(*c)),
    decreases *c,
{
    match c {
        Cause::Host { text, cause } => {
            out.append("\n    ");
            out.append(text.as_str());
            match cause {
                Some(b) => {
                    append_causes(&**b, out);
                    proof {
                        let ts = cause_texts(*c);
                        assert(ts[0] == text@);
                        assert(ts.drop_first() =~= cause_texts(**b));
                        assert(out@ =~= old(out)@ + sources_text(ts));
                    }
                },
                None => {
                    proof {
                        let ts = cause_texts(*c);
                        assert(ts[0] == text@);
                        assert(ts.drop_first() =~= Seq::<Seq<char>>::empty());
                        assert(sources_text(Seq::<Seq<char>>::empty()) == Seq::<char>::empty());
                        assert(out@ =~= old(out)@ + sources_text(ts));
                    }
                },
            }
        },
        Cause::Runtime(e) => {
            out.append("\n    ");
            match &*e.payload {
                Payload::Error { val, source, .. } => {
                    let vr = val.render();
                    out.append(vr.as_str());
                    proof {
                        assert(head_val(*e) == val@);
                    }
                    match source {
                        Some(b) => {
                            append_causes(&**b, out);
                            proof {
                                let ts = cause_texts(*c);
                                assert(head_source(*e) == Some(**b));
                                assert(ts[0] == val_text(head_val(*e)));
                                assert(ts.drop_first() =~= cause_texts(**b));
                                assert(out@ =~= old(out)@ + sources_text(ts));
                            }
                        },
                        None => {
                            proof {
                                let ts = cause_texts(*c);
                                assert(ts[0] == val_text(head_val(*e)));
                                assert(ts.drop_first() =~= Seq::<Seq<char>>::empty());
                                assert(sources_text(Seq::<Seq<char>>::empty())
                                    == Seq::<char>::empty());
                                assert(out@ =~= old(out)@ + sources_text(ts));
                            }
                        },
                    }
                },
                Payload::MacroNoOp => {
                    proof {
                        assert(false);
                    }
                },
            }
        },
    }
}

impl GError {
    /// Renders this failure as its deterministic human-readable text.
    /// Rendering is pure: the result is a function of the failure's view
    /// alone, and rendering never fails.
    pub fn to_text(&self) -> (r: String)
        requires
            renderable(*self),
        ensures
            r@ == render_nodes(self@),
        decreases self@.len(),
    {
        match &*self.payload {
            Payload::MacroNoOp => vstd::pervasive::unreached(),
            Payload::Error { val, file_location, stack_trace, defer_chain, source } => {
                match stack_trace {
                    None => {
                        let base = match file_location {
                            None => val.render(),
                            Some(loc) => {
                                let mut out = loc.clone();
                                out.append(": ");
                                let vr = val.render();
                                out.append(vr.as_str());
                                out
                            },
                        };
                        proof {
                            assert(base@ =~= render_nodes(self@));
                        }
                        base
                    },
                    Some(tr) => {
                        let ghost tv = tr.deep_view();
                        let mut out = "stack trace:\n".to_owned();
                        let mut i: usize = 0;
                        while i < tr.len()
                            invariant
                                i <= tr.len(),
                                tv == tr.deep_view(),
                                out@ == "stack trace:\n"@ + indented_lines(tv.take(i as int)),
                            decreases tr.len() - i,
                        {
                            out.append("    ");
                            out.append(tr[i].as_str());
                            out.append("\n");
                            proof {
                                assert(tv.take(i + 1 as int).drop_last() =~= tv.take(i as int));
                                assert(tv.take(i + 1 as int).last() == tr@[i as int]@);
                                assert(out@ =~= "stack trace:\n"@ + indented_lines(
                                    tv.take(i + 1 as int),
                                ));
                            }
                            i = i + 1;
                        }
                        proof {
                            assert(tv.take(tr.len() as int) =~= tv);
                        }
                        match source {
                            Some(src) => {
                                out.append("\nerrors:");
                                out.append("\n    ");
                                let vr = val.render();
                                out.append(vr.as_str());
                                append_causes(&**src, &mut out);
                            },
                            None => {
                                out.append("\nerror: ");
                                let vr = val.render();
                                out.append(vr.as_str());
                            },
                        }
                        proof {
                            assert(out@ =~= "stack trace:\n"@ + indented_lines(tv) + match head_data(
                                *self,
                            ).source {
                                Some(ts) => "\nerrors:"@ + "\n    "@ + val_text(head_data(*self).val)
                                    + sources_text(ts),
                                None => "\nerror: "@ + val_text(head_data(*self).val),
                            });
                        }
                        match defer_chain {
                            Some(d) => {
                                proof {
                                    assert(d@ =~= self@.drop_first());
                                    assert(self@.len() == 1 + d@.len());
                                }
                                out.append(
                                    "\n\nwhile this error was unwinding, a (defer) form also failed:\n\n",
                                );
                                let dt = d.to_text();
                                out.append(dt.as_str());
                            },
                            None => {},
                        }
                        proof {
                            assert(out@ =~= render_nodes(self@));
                        }
                        out
                    },
                }
            },
        }
    }
}

impl GError {
    /// Like `new`, but attributed to the given span: the span is registered
    /// as a temporary error-at frame for the duration of construction and
    /// unconditionally removed afterwards, leaving the context as it was.
    pub fn new_at(ctx: &mut Ctx, span: Span) -> (r: GError)
        ensures
            r@ == fresh_model(
                ValModel::Text("explicit call to bail!, error!, or GError::new"@),
                Some(span.text@),
                old(ctx).captured_trace(),
            ),
            !r.is_signal(),
            renderable(r),
            final(ctx).frames@ == old(ctx).frames@,
            final(ctx).base_location == old(ctx).base_location,
            final(ctx).trace_lines == old(ctx).trace_lines,
            final(ctx).verbose == old(ctx).verbose,
            final(ctx).in_expander == old(ctx).in_expander,
    {
        let ghost f = Frame::ErrorAt(span);
        ctx.push_frame(Frame::ErrorAt(span));
        let r = GError::new(&*ctx);
        ctx.pop_frame();
        proof {
            assert(old(ctx).frames@.push(f).drop_last() =~= old(ctx).frames@);
        }
        r
    }

    /// Like `from_str`, but attributed to the given span; the temporary
    /// error-at frame is removed on every path.
    pub fn from_str_at(ctx: &mut Ctx, span: Span, st: &str) -> (r: GError)
        ensures
            r@ == fresh_model(ValModel::Text(st@), Some(span.text@), old(ctx).captured_trace()),
            !r.is_signal(),
            renderable(r),
            final(ctx).frames@ == old(ctx).frames@,
            final(ctx).base_location == old(ctx).base_location,
            final(ctx).trace_lines == old(ctx).trace_lines,
            final(ctx).verbose == old(ctx).verbose,
            final(ctx).in_expander == old(ctx).in_expander,
    {
        let ghost f = Frame::ErrorAt(span);
        ctx.push_frame(Frame::ErrorAt(span));
        let r = GError::from_str(&*ctx, st);
        ctx.pop_frame();
        proof {
            assert(old(ctx).frames@.push(f).drop_last() =~= old(ctx).frames@);
        }
        r
    }

    /// Like `from_val`, but attributed to the given span; the temporary
    /// error-at frame is removed on every path.
    pub fn from_val_at<T: IntoVal>(ctx: &mut Ctx, span: Span, t: T) -> (r: GError)
        ensures
            r@ == fresh_model(converted_or_nil(t), Some(span.text@), old(ctx).captured_trace()),
            !r.is_signal(),
            renderable(r),
            final(ctx).frames@ == old(ctx).frames@,
            final(ctx).base_location == old(ctx).base_location,
            final(ctx).trace_lines == old(ctx).trace_lines,
            final(ctx).verbose == old(ctx).verbose,
            final(ctx).in_expander == old(ctx).in_expander,
    {
        let ghost f = Frame::ErrorAt(span);
        ctx.push_frame(Frame::ErrorAt(span));
        let r = GError::from_val(&*ctx, t);
        ctx.pop_frame();
        proof {
            assert(old(ctx).frames@.push(f).drop_last() =~= old(ctx).frames@);
        }
        r
    }
}

/// Deferred chaining is order-preserving: chaining a second failure and
/// then a third onto an ordinary failure traverses as first, second, third,
/// never any other order.
pub proof fn lemma_defer_chain_order(a: Seq<NodeModel>, b: Seq<NodeModel>, c: Seq<NodeModel>)
    requires
        a.len() > 0,
        forall|i: int| 0 <= i < a.len() ==> a[i] is Fail,
        b.len() > 0,
        forall|i: int| 0 <= i < b.len() ==> b[i] is Fail,
    ensures
        chain_model(chain_model(a, b), c) == a + b + c,
{
    assert(a[0] is Fail);
    assert(a.last() is Fail);
    assert(chain_model(a, b) == a + b);
    assert((a + b)[0] is Fail);
    assert((a + b).last() == b.last());
    assert((a + b).last() is Fail);
}

/// A failure built by the primary constructors is never the macro-no-op
/// signal, and what was raised round-trips: the payload of the one link is
/// exactly the converted value, its diagnostics exactly those captured.
pub proof fn lemma_fresh_failure_is_ordinary(
    v: ValModel,
    loc: Option<Seq<char>>,
    tr: Option<Seq<Seq<char>>>,
)
    ensures
        fresh_model(v, loc, tr).len() == 1,
        fresh_model(v, loc, tr)[0] == NodeModel::Fail(
            (FailData { val: v, location: loc, trace: tr, source: None }),
        ),
{
}

/// Trace capture is gated strictly by the verbose flag at construction
/// time: the captured trace exists exactly where the flag was set.  A
/// failure value never changes after construction, so toggling the flag
/// later cannot backfill a trace.
pub proof fn lemma_trace_gated_by_verbose(ctx: Ctx)
    ensures
        ctx.captured_trace() is Some <==> ctx.verbose,
{
}

/// Chaining a deferred failure onto the macro-no-op signal replaces the
/// signal entirely: the result is the new failure alone.
pub proof fn lemma_defer_chain_replaces_signal(b: Seq<NodeModel>)
    ensures
        chain_model(seq![NodeModel::Signal], b) == b,
{
}

/// Rendering is a pure function of the failure's view: two failures with
/// the same view render identically, however they were built.
pub proof fn lemma_render_depends_only_on_value(f: GError, g: GError)
    requires
        f@ == g@,
    ensures
        render_nodes(f@) == render_nodes(g@),
{
}

/// Converting an already-fallible result succeeds only where the result
/// did: an `Err` makes the conversion fail, which the failure constructors
/// absorb into a `Nil` payload.
impl IntoVal for Result<Val, GError> {
    open spec fn val_model(self) -> Option<ValModel> {
        match self {
            Ok(v) => Some(v@),
            Err(_) => None,
        }
    }

    fn into_val(self) -> (r: Option<Val>) {
        match self {
            Ok(v) => Some(v),
            Err(_) => None,
        }
    }
}

/// The head link's data; meaningless for the signal.
pub open spec fn head_data(f: GError) -> FailData {
    match failure_nodes(f)[0] {
        NodeModel::Fail(d) => d,
        NodeModel::Signal => FailData {
            val: ValModel::Nil,
            location: None,
            trace: None,
            source: None,
        },
    }
}

impl GError {
    /// The wrapped cause attached underneath this failure, if any; `None`
    /// for the signal, which never carries a cause.
    pub fn source(&self) -> (r: Option<&Cause>)
        ensures
            match r {
                Some(c) => head_source(*self) == Some(*c),
                None => head_source(*self) is None,
            },
    {
        match &*self.payload {
            Payload::Error { source: Some(b), .. } => Some(&**b),
            _ => None,
        }
    }
}

/// The result type of the interpreter's fallible operations.
pub type GResult<T> = Result<T, GError>;

} // verus!
