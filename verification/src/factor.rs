//! A formula bound to an engine, for repeated evaluation.

use vstd::prelude::*;
use vstd::string::StringExecFns;
use polars::prelude::DataFrame;
use polars::prelude::Series;
use crate::error::ErrorKind;
use crate::error::ExprError;
use crate::error::kind_of;
use crate::ExprEngine;
use crate::formula_value;
use crate::missing;
use crate::rpn::fits;

verus! {

/// A named, formula-derived column: the formula's text and the engine that
/// evaluates it. The formula is compiled at each evaluation, so construction
/// never fails.
#[derive(Debug)]
pub struct Factor {
    engine: ExprEngine,
    expression: String,
}

impl View for Factor {
    type V = Seq<char>;

    /// The text of the formula.
    closed spec fn view(&self) -> Seq<char> {
        self.expression@
    }
}

impl Factor {
    /// A factor for the formula `expression`.
    pub fn new(expression: &str) -> (factor: Self)
        ensures
            factor@ == expression@,
    {
        Factor { engine: ExprEngine::new(), expression: String::from_str(expression) }
    }

    /// The factor's column for the table `df`.
    pub fn compute(&self, df: &DataFrame) -> (r: Result<Series, ExprError>)
        ensures
            kind_of(r) == formula_value(*df, self@),
            r matches Ok(column) ==> fits(*df, column),
            r matches Err(e) ==> (e.kind == ErrorKind::UnknownColumn ==> missing(
                *df,
                self@,
                e.detail@,
            )),
    {
        self.engine.evaluate(df, self.expression.as_str())
    }
}

} // verus!
