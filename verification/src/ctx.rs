//! The runtime context a failure is constructed against.
//!
//! The interpreter keeps a call-frame stack, a verbose-diagnostics flag and
//! an "inside a macro expander" flag as dynamically scoped state.  Here that
//! state is an explicit `Ctx` value handed to every constructor, so that
//! diagnostic capture is a pure function of the context at construction time.

use vstd::prelude::*;

verus! {

/// A reference to a source location, as text such as `script.glsp:12`.
pub struct Span {
    pub text: String,
}

/// A frame on the shared call-frame stack.  The failure constructors only
/// ever push frames that attribute a failure to a source span.
pub enum Frame {
    ErrorAt(Span),
}

/// The dynamically scoped state read at failure-construction time.
pub struct Ctx {
    /// The location the host can supply when no error-at frame is active;
    /// absent where the context cannot name one.
    pub base_location: Option<String>,
    /// The formatted call-stack snapshot, one line per active frame.
    pub trace_lines: Vec<String>,
    /// Whether verbose diagnostics are enabled.
    pub verbose: bool,
    /// Whether execution is currently inside a macro expander.
    pub in_expander: bool,
    /// Frames pushed by span-scoped construction, innermost last.
    pub frames: Vec<Frame>,
}

impl Ctx {
    /// The location a failure constructed now would be attributed to:
    /// the innermost pushed error-at span, else the host's base location.
    pub open spec fn location_model(self) -> Option<Seq<char>> {
        if self.frames@.len() > 0 {
            match self.frames@.last() {
                Frame::ErrorAt(span) => Some(span.text@),
            }
        } else {
            match self.base_location {
                Some(s) => Some(s@),
                None => None,
            }
        }
    }

    /// The call-stack snapshot as a sequence of lines.
    pub open spec fn trace_model(self) -> Seq<Seq<char>> {
        self.trace_lines.deep_view()
    }

    /// The trace a failure constructed now would capture: the full snapshot
    /// under verbose diagnostics, nothing otherwise.
    pub open spec fn captured_trace(self) -> Option<Seq<Seq<char>>> {
        if self.verbose {
            Some(self.trace_model())
        } else {
            None
        }
    }

    /// Reads the location a failure constructed now is attributed to.
    pub fn file_location(&self) -> (r: Option<String>)
        ensures
            match r {
                Some(s) => self.location_model() == Some(s@),
                None => self.location_model() is None,
            },
    {
        if self.frames.len() > 0 {
            match &self.frames[self.frames.len() - 1] {
                Frame::ErrorAt(span) => Some(span.text.clone()),
            }
        } else {
            self.base_location.clone()
        }
    }

    /// Snapshots the formatted call-stack trace.
    pub fn stack_trace(&self) -> (r: Vec<String>)
        ensures
            r.deep_view() == self.trace_model(),
    {
        let r = self.trace_lines.clone();
        proof {
            assert forall|i: int| 0 <= i < r@.len() implies r@[i]@ == self.trace_lines@[i]@ by {
                assert(cloned::<String>(self.trace_lines@[i], r@[i]));
            }
            assert(r.deep_view() =~~= self.trace_model());
        }
        r
    }

    /// Pushes a frame onto the shared call-frame stack.
    pub fn push_frame(&mut self, frame: Frame)
        ensures
            final(self).frames@ == old(self).frames@.push(frame),
            final(self).base_location == old(self).base_location,
            final(self).trace_lines == old(self).trace_lines,
            final(self).verbose == old(self).verbose,
            final(self).in_expander == old(self).in_expander,
    {
        self.frames.push(frame);
    }

    /// Pops the innermost frame; strictly balanced with `push_frame`.
    pub fn pop_frame(&mut self)
        requires
            old(self).frames@.len() > 0,
        ensures
            final(self).frames@ == old(self).frames@.drop_last(),
            final(self).base_location == old(self).base_location,
            final(self).trace_lines == old(self).trace_lines,
            final(self).verbose == old(self).verbose,
            final(self).in_expander == old(self).in_expander,
    {
        self.frames.pop();
    }
}

} // verus!
