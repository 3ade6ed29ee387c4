//! Source-level timing instrumentation.
//!
//! Given the token stream of a function item or of a single expression, this
//! library produces the source text of a semantically equivalent construct
//! that additionally measures its own wall-clock execution time and reports
//! the elapsed duration in a magnitude-adaptive unit.

use vstd::prelude::*;

mod construct;
mod durations;
mod emit;
pub mod tokens;

pub use construct::ExprConstruct;
pub use construct::FnConstruct;
pub use construct::TransformError;
pub use construct::check_eligibility;
pub use construct::spec_eligible;
pub use durations::dec_rep;
pub use durations::digit_seq;
pub use durations::expression_report_line;
pub use durations::format_duration;
pub use durations::function_report_line;
pub use durations::lemma_format_duration_buckets;
pub use durations::spec_expression_report;
pub use durations::spec_format_duration;
pub use durations::spec_function_report;
pub use emit::escape_char;
pub use emit::escape_source_text;
pub use emit::escaped;
pub use emit::expr_clock_start;
pub use emit::expr_epilogue;
pub use emit::expr_label_open;
pub use emit::lemma_body_spliced_once;
pub use emit::lemma_expression_spliced_once;
pub use emit::lemma_signature_preserved;
pub use emit::render_instrumented_expression;
pub use emit::render_instrumented_function;
pub use emit::rendered_attrs;
pub use emit::shell_epilogue;
pub use emit::shell_header;
pub use emit::shell_prologue;
pub use emit::spec_instrumented_expression;
pub use emit::spec_instrumented_function;
pub use emit::spliced_body;
pub use tokens::attr_texts_of;
pub use tokens::expr_of;
pub use tokens::expr_text_of;
pub use tokens::item_attrs;
pub use tokens::item_body_text;
pub use tokens::item_is_async;
pub use tokens::item_is_const;
pub use tokens::item_name_text;
pub use tokens::item_of;
pub use tokens::item_sig_text;
pub use tokens::item_vis_text;
pub use tokens::parses_as_expr;
pub use tokens::parses_as_fn;
pub use tokens::tokens_text;

verus! {

/// Stringifies each attribute of a parsed function item, in source order.
fn collect_attr_texts(attrs: &Vec<syn::Attribute>) -> (r: Vec<String>)
    ensures
        r.deep_view() == attr_texts_of(attrs@),
{
    let mut out: Vec<String> = Vec::new();
    let mut i: usize = 0;
    while i < attrs.len()
        invariant
            i <= attrs@.len(),
            out@.len() == i,
            forall|j: int| 0 <= j < i ==> out@[j]@ == tokens::attr_text_of(attrs@[j]),
        decreases attrs@.len() - i,
    {
        out.push(tokens::attr_text(&attrs[i]));
        i = i + 1;
    }
    proof {
        assert(out.deep_view() =~= attr_texts_of(attrs@));
    }
    out
}

/// Instruments an already decomposed function: rejects exactly the `const`
/// functions, naming the offender, and for every eligible function returns
/// the instrumented shell's text, pinned exactly by the template.
pub fn transform_function(f: &FnConstruct) -> (r: Result<String, TransformError>)
    ensures
        !f.is_const ==> (r matches Ok(s) && s@ == spec_instrumented_function(
            f.attrs.deep_view(),
            f.vis@,
            f.sig@,
            f.name@,
            f.body@,
            f.is_async,
        )),
        f.is_const ==> (r matches Err(e) && e matches TransformError::ConstFunctionUnsupported(n)
            && n@ == f.name@),
{
    match check_eligibility(f) {
        Err(e) => Err(e),
        Ok(()) => Ok(render_instrumented_function(f)),
    }
}

/// Instruments an already decomposed expression.  Every expression is
/// eligible; the result is pinned exactly by the template.
pub fn transform_expression(e: &ExprConstruct) -> (r: String)
    ensures
        r@ == spec_instrumented_expression(e.source_text@, e.expr_text@),
{
    render_instrumented_expression(e)
}

/// Instruments a function item given as its token stream: parses it,
/// rejects `const` functions, and otherwise synthesizes the text of a
/// function with an identical externally visible signature whose body is
/// the original one wrapped with timing capture and a report write.
/// Succeeds exactly when the tokens parse as a non-`const` function item;
/// a parse failure and a `const` function are the only errors, each owed
/// exactly on its own inputs.
pub fn time_this(input: proc_macro2::TokenStream) -> (r: Result<String, TransformError>)
    ensures
        r is Ok <==> (parses_as_fn(input) && !item_is_const(item_of(input))),
        r matches Ok(s) ==> s@ == spec_instrumented_function(
            attr_texts_of(item_attrs(item_of(input))),
            item_vis_text(item_of(input)),
            item_sig_text(item_of(input)),
            item_name_text(item_of(input)),
            item_body_text(item_of(input)),
            item_is_async(item_of(input)),
        ),
        !parses_as_fn(input) <==> (r matches Err(e) && e is MalformedFunction),
        (parses_as_fn(input) && item_is_const(item_of(input))) <==> (r matches Err(e)
            && e matches TransformError::ConstFunctionUnsupported(n) && n@ == item_name_text(
            item_of(input),
        )),
{
    match tokens::parse_item_fn(input) {
        Err(m) => Err(TransformError::MalformedFunction(m)),
        Ok(item) => {
            let f = FnConstruct {
                attrs: collect_attr_texts(&tokens::item_fn_attrs(&item)),
                vis: tokens::item_fn_vis_text(&item),
                sig: tokens::item_fn_sig_text(&item),
                name: tokens::item_fn_name(&item),
                body: tokens::item_fn_body_text(&item),
                is_const: tokens::item_fn_is_const(&item),
                is_async: tokens::item_fn_is_async(&item),
            };
            transform_function(&f)
        },
    }
}

/// Instruments a single expression given as its token stream: captures the
/// tokens' display text as the report label, parses the expression, and
/// synthesizes the text of a block that evaluates the expression exactly
/// once, reports its timing, and evaluates to its value.  Succeeds exactly
/// when the tokens parse as a single expression; a parse failure is the
/// only error.
pub fn time(input: proc_macro2::TokenStream) -> (r: Result<String, TransformError>)
    ensures
        r is Ok <==> parses_as_expr(input),
        r matches Ok(s) ==> s@ == spec_instrumented_expression(
            tokens_text(input),
            expr_text_of(expr_of(input)),
        ),
        !parses_as_expr(input) <==> (r matches Err(e) && e is MalformedExpression),
{
    let source_text = tokens::tokens_display(&input);
    match tokens::parse_expr(input) {
        Err(m) => Err(TransformError::MalformedExpression(m)),
        Ok(parsed) => {
            let e = ExprConstruct { source_text, expr_text: tokens::expr_tokens_text(&parsed) };
            Ok(transform_expression(&e))
        },
    }
}

} // verus!
