//! The structured representation of the constructs this library instruments,
//! and the eligibility rules that decide which of them it may instrument.

use vstd::prelude::*;

verus! {

/// A function item decomposed into the parts the instrumentation needs: the
/// attribute texts, the visibility, signature and body texts (each re-emitted
/// verbatim), the function's name, and the markers that drive eligibility.
pub struct FnConstruct {
    /// The token text of each attribute, in source order.
    pub attrs: Vec<String>,
    /// The token text of the visibility qualifier (empty for private items).
    pub vis: String,
    /// The token text of the full signature, name and generics included.
    pub sig: String,
    /// The function's name alone, used to tag the report line.
    pub name: String,
    /// The token text of the body block, braces included.  The body is
    /// opaque: it is relocated, never inspected.
    pub body: String,
    /// Whether the function is marked `const` (compile-time evaluable).
    pub is_const: bool,
    /// Whether the function is marked `async`.  Such functions are accepted,
    /// though the reported duration covers only the span up to the first
    /// suspension point.
    pub is_async: bool,
}

/// A single expression decomposed for instrumentation: the pre-parse source
/// text of its tokens (used only as a display label) and the token text of
/// the parsed expression tree (re-emitted verbatim, evaluated exactly once).
pub struct ExprConstruct {
    /// The display text of the tokens as they were handed in, before parsing.
    pub source_text: String,
    /// The token text of the parsed expression.
    pub expr_text: String,
}

/// The failures of the transformation.  All of them surface at build time;
/// an emitted construct itself has no failure modes of its own.
#[derive(Debug)]
pub enum TransformError {
    /// The tokens do not parse as a function item.  Carries the parser's
    /// diagnostic text.
    MalformedFunction(String),
    /// The tokens do not parse as a single expression.  Carries the parser's
    /// diagnostic text.
    MalformedExpression(String),
    /// The function is compile-time evaluable and so cannot perform a
    /// runtime clock read.  Carries the offending function's name.
    ConstFunctionUnsupported(String),
}

impl TransformError {
    /// The diagnostic text for this failure: the parser's own message for a
    /// malformed construct, and a fixed explanation for a `const` function.
    pub fn message(&self) -> (r: String)
        ensures
            self matches TransformError::MalformedFunction(m) ==> r@ == m@,
            self matches TransformError::MalformedExpression(m) ==> r@ == m@,
            self is ConstFunctionUnsupported ==> r@ == "This macro does not work with `const fn`."@,
    {
        match self {
            TransformError::MalformedFunction(m) => m.clone(),
            TransformError::MalformedExpression(m) => m.clone(),
            TransformError::ConstFunctionUnsupported(_) => String::from_str(
                "This macro does not work with `const fn`.",
            ),
        }
    }
}

/// Eligibility: a function can be instrumented exactly when it is not
/// compile-time evaluable.  No other signature shape is rejected; in
/// particular an `async` function is accepted.
pub open spec fn spec_eligible(is_const: bool) -> bool {
    !is_const
}

/// Decides whether `f` may be instrumented.  Rejects exactly the `const`
/// functions, naming the offender; every other shape is eligible.
pub fn check_eligibility(f: &FnConstruct) -> (r: Result<(), TransformError>)
    ensures
        r is Ok <==> spec_eligible(f.is_const),
        f.is_const ==> (r matches Err(e) && e matches TransformError::ConstFunctionUnsupported(n)
            && n@ == f.name@),
{
    if f.is_const {
        Err(TransformError::ConstFunctionUnsupported(f.name.clone()))
    } else {
        Ok(())
    }
}

} // verus!
