//! The payload values carried by ordinary failures.
//!
//! The surrounding runtime has a full value system; a failure only needs to
//! own one converted value.  `Val` holds the shapes a failure payload can
//! take, and `IntoVal` is the conversion capability through which arbitrary
//! raised data is boxed into a payload.  Conversion may fail; the failure
//! constructors absorb that and fall back to `Val::Nil`.

use vstd::prelude::*;
use vstd::string::StringExecFns;

verus! {

/// Mathematical model of a payload value.
pub enum ValModel {
    Nil,
    Bool(bool),
    Text(Seq<char>),
}

/// A language-level value owned by an ordinary failure.
#[derive(Debug, PartialEq, Eq)]
pub enum Val {
    Nil,
    Bool(bool),
    Text(String),
}

impl View for Val {
    type V = ValModel;

    open spec fn view(&self) -> ValModel {
        match self {
            Val::Nil => ValModel::Nil,
            Val::Bool(b) => ValModel::Bool(*b),
            Val::Text(s) => ValModel::Text(s@),
        }
    }
}

impl Clone for Val {
    fn clone(&self) -> (r: Val)
        ensures
            r@ == self@,
    {
        match self {
            Val::Nil => Val::Nil,
            Val::Bool(b) => Val::Bool(*b),
            Val::Text(s) => Val::Text(s.clone()),
        }
    }
}

/// The text a value renders as: the structural form used everywhere a
/// failure is presented.  Texts print quoted, as the language writes them.
pub open spec fn val_text(v: ValModel) -> Seq<char> {
    match v {
        ValModel::Nil => "#n"@,
        ValModel::Bool(b) => if b {
            "#t"@
        } else {
            "#f"@
        },
        ValModel::Text(s) => "\""@ + s + "\""@,
    }
}

impl Val {
    /// Renders this value as text, exactly as `val_text` states.
    pub fn render(&self) -> (r: String)
        ensures
            r@ == val_text(self@),
    {
        match self {
            Val::Nil => "#n".to_owned(),
            Val::Bool(b) => {
                if *b {
                    "#t".to_owned()
                } else {
                    "#f".to_owned()
                }
            },
            Val::Text(s) => {
                let mut out = "\"".to_owned();
                out.append(s.as_str());
                out.append("\"");
                out
            },
        }
    }
}

/// Conversion of arbitrary raised data into a payload value.
///
/// `val_model` states, per type, what the conversion yields; `None` means
/// the conversion fails.  Failure is absorbed by the failure constructors,
/// never propagated.
pub trait IntoVal: Sized {
    spec fn val_model(self) -> Option<ValModel>;

    fn into_val(self) -> (r: Option<Val>)
        ensures
            match r {
                Some(v) => self.val_model() == Some(v@),
                None => self.val_model() is None,
            },
    ;
}

impl IntoVal for Val {
    open spec fn val_model(self) -> Option<ValModel> {
        Some(self@)
    }

    fn into_val(self) -> (r: Option<Val>) {
        Some(self)
    }
}

impl IntoVal for bool {
    open spec fn val_model(self) -> Option<ValModel> {
        Some(ValModel::Bool(self))
    }

    fn into_val(self) -> (r: Option<Val>) {
        Some(Val::Bool(self))
    }
}

impl<'a> IntoVal for &'a str {
    open spec fn val_model(self) -> Option<ValModel> {
        Some(ValModel::Text(self@))
    }

    fn into_val(self) -> (r: Option<Val>) {
        Some(Val::Text(self.to_owned()))
    }
}

impl IntoVal for String {
    open spec fn val_model(self) -> Option<ValModel> {
        Some(ValModel::Text(self@))
    }

    fn into_val(self) -> (r: Option<Val>) {
        Some(Val::Text(self))
    }
}

/// What a conversion hands the constructor once failure is absorbed:
/// the converted value, or `Nil` when conversion failed.
pub open spec fn converted_or_nil<T: IntoVal>(t: T) -> ValModel {
    match t.val_model() {
        Some(v) => v,
        None => ValModel::Nil,
    }
}

} // verus!
