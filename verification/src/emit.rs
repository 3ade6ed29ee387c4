//! Synthesis of the instrumented constructs as source text.
//!
//! The shell around a function body, and the wrapper around an expression,
//! are rendered as exact concatenations of fixed template segments and the
//! original construct's own parts.  The original attributes, visibility and
//! signature open the shell verbatim, and the original body or expression is
//! spliced in exactly once, unmodified; everything the shell adds around it
//! is fixed text.  A non-`async` body is bound inside a closure invoked
//! exactly once, so that an early `return` ends only that inner scope and
//! the report still follows.

use crate::construct::{ExprConstruct, FnConstruct};
use vstd::prelude::*;

verus! {

/// How one character of an expression's display label is embedded in the
/// string literal of the emitted wrapper: quotes and backslashes get a
/// backslash prefix, every other character stands as itself.
pub open spec fn escape_char(c: char) -> Seq<char> {
    if c == '"' || c == '\\' {
        seq!['\\', c]
    } else {
        seq![c]
    }
}

/// The body of the string literal that embeds `s` in the emitted wrapper.
pub open spec fn escaped(s: Seq<char>) -> Seq<char>
    decreases s.len(),
{
    if s.len() == 0 {
        Seq::empty()
    } else {
        escaped(s.drop_last()) + escape_char(s.last())
    }
}

/// Escapes a display label for embedding in a string literal of the emitted
/// wrapper.
pub fn escape_source_text(s: &str) -> (r: String)
    ensures
        r@ == escaped(s@),
{
    let n: usize = s.unicode_len();
    let mut out = String::new();
    let mut i: usize = 0;
    while i < n
        invariant
            n == s@.len(),
            i <= n,
            out@ == escaped(s@.take(i as int)),
        decreases n - i,
    {
        let c = s.get_char(i);
        if c == '"' || c == '\\' {
            out.append("\\");
        }
        let piece = s.substring_char(i, i + 1);
        out.append(piece);
        proof {
            reveal_strlit("\\");
            assert("\\"@ =~= seq!['\\']);
            assert(s@.take(i as int + 1).drop_last() =~= s@.take(i as int));
            assert(s@.take(i as int + 1).last() == s@[i as int]);
            assert(s@.subrange(i as int, i as int + 1) =~= seq![s@[i as int]]);
            assert(out@ =~= escaped(s@.take(i as int + 1)));
        }
        i = i + 1;
    }
    proof {
        assert(s@.take(n as int) =~= s@);
    }
    out
}

/// The attribute block of the shell: each original attribute's text in
/// source order, one per line.
pub open spec fn rendered_attrs(attrs: Seq<Seq<char>>) -> Seq<char>
    decreases attrs.len(),
{
    if attrs.len() == 0 {
        Seq::empty()
    } else {
        rendered_attrs(attrs.drop_last()) + attrs.last() + "\n"@
    }
}

/// The shell's opening: the original attributes, visibility and signature,
/// verbatim, followed by the opening brace.  Everything externally visible
/// about the function stands here unchanged.
pub open spec fn shell_header(attrs: Seq<Seq<char>>, vis: Seq<char>, sig: Seq<char>) -> Seq<
    char,
> {
    rendered_attrs(attrs) + vis + " "@ + sig + " {\n"@
}

/// The statements between the shell's opening and the spliced body: the
/// name binding for the report tag and the clock-start read, ending where
/// the body's value is bound.
pub open spec fn shell_prologue(name: Seq<char>) -> Seq<char> {
    "let __fn_name = \""@ + name
        + "\";\nlet __start_time = ::std::time::Instant::now();\nlet res = "@
}

/// How the body is bound for evaluation.  A plain body goes inside a
/// closure invoked exactly once, so an early `return` in it ends only that
/// inner scope, the result still flows to the shell by ordinary value
/// passing, and the report is still written.  An `async` body is bound
/// directly — a closure cannot hold its suspension points — which is the
/// documented partial-timing caveat of `async` functions.
pub open spec fn spliced_body(body: Seq<char>, is_async: bool) -> Seq<char> {
    if is_async {
        body
    } else {
        "(move || "@ + body + ")()"@
    }
}

/// The statements after the spliced body: the clock-elapsed read, the
/// threshold-table formatting, the report write, and the return of the
/// bound result.  Fixed text; nothing here depends on the original
/// construct.  The seconds arm rounds the hundredths on integers, carrying
/// into the seconds digit, as the library's own formatter does.
pub open spec fn shell_epilogue() -> Seq<char> {
    ";\nlet __elapsed_time = __start_time.elapsed();\nlet __elapsed_msg = "@
        + "if __elapsed_time.checked_sub(::std::time::Duration::from_micros(1)).is_none() {\nformat!(\"function '{}()' took {}ns\", __fn_name, __elapsed_time.as_nanos())\n"@
        + "} else if __elapsed_time.checked_sub(::std::time::Duration::from_millis(1)).is_none() {\nformat!(\"function '{}()' took {}\u{3bc}s\", __fn_name, __elapsed_time.as_micros())\n"@
        + "} else if __elapsed_time.checked_sub(::std::time::Duration::from_millis(1000)).is_none() {\nformat!(\"function '{}()' took {}ms\", __fn_name, __elapsed_time.as_millis())\n"@
        + "} else {\nlet __centis: u32 = __elapsed_time.subsec_nanos() / 10000000 + if __elapsed_time.subsec_nanos() % 10000000 >= 5000000 { 1 } else { 0 };\nformat!(\"function '{}()' took {}.{:02}s\", __fn_name, __elapsed_time.as_secs() + (__centis / 100) as u64, __centis % 100)\n};\n"@
        + "println!(\"{}\", __elapsed_msg);\nres\n}"@
}

/// The full text of the instrumented function: the original header, the
/// timing prologue, the original body spliced in once, and the fixed
/// epilogue.
pub open spec fn spec_instrumented_function(
    attrs: Seq<Seq<char>>,
    vis: Seq<char>,
    sig: Seq<char>,
    name: Seq<char>,
    body: Seq<char>,
    is_async: bool,
) -> Seq<char> {
    shell_header(attrs, vis, sig) + shell_prologue(name) + spliced_body(body, is_async)
        + shell_epilogue()
}

/// The opening of the instrumented expression, up to the string literal that
/// embeds the call-site display label.
pub open spec fn expr_label_open() -> Seq<char> {
    "{\nlet __str_expr = format!(\"[{}:{}] {}\", file!(), line!(), \""@
}

/// From the end of the embedded label to the point where the original
/// expression is spliced in: the label binding closes and the clock-start
/// read precedes the evaluation.
pub open spec fn expr_clock_start() -> Seq<char> {
    "\");\nlet __start_time = ::std::time::Instant::now();\nlet res = "@
}

/// The statements after the spliced expression: the clock-elapsed read, the
/// threshold-table formatting, the report write, and the evaluation to the
/// bound result.  Fixed text; the seconds arm rounds as in the function
/// form.
pub open spec fn expr_epilogue() -> Seq<char> {
    ";\nlet __elapsed_time = __start_time.elapsed();\nlet __elapsed_msg = "@
        + "if __elapsed_time.checked_sub(::std::time::Duration::from_micros(1)).is_none() {\nformat!(\"{} took {}ns\", __str_expr, __elapsed_time.as_nanos())\n"@
        + "} else if __elapsed_time.checked_sub(::std::time::Duration::from_millis(1)).is_none() {\nformat!(\"{} took {}\u{3bc}s\", __str_expr, __elapsed_time.as_micros())\n"@
        + "} else if __elapsed_time.checked_sub(::std::time::Duration::from_millis(1000)).is_none() {\nformat!(\"{} took {}ms\", __str_expr, __elapsed_time.as_millis())\n"@
        + "} else {\nlet __centis: u32 = __elapsed_time.subsec_nanos() / 10000000 + if __elapsed_time.subsec_nanos() % 10000000 >= 5000000 { 1 } else { 0 };\nformat!(\"{} took {}.{:02}s\", __str_expr, __elapsed_time.as_secs() + (__centis / 100) as u64, __centis % 100)\n};\n"@
        + "println!(\"{}\", __elapsed_msg);\nres\n}"@
}

/// The full text of the instrumented expression: a block that captures the
/// display label, evaluates the original expression exactly once, and
/// reports before evaluating to the bound result.  The expression is bound
/// directly — not through a closure — so a `return` or `?` inside it still
/// reaches the function enclosing the call site, exactly as it would have
/// without instrumentation.
pub open spec fn spec_instrumented_expression(source: Seq<char>, expr: Seq<char>) -> Seq<char> {
    expr_label_open() + escaped(source) + expr_clock_start() + expr + expr_epilogue()
}

/// Law (signature preservation): the instrumented function's text begins
/// with the original attributes, visibility and signature, verbatim; the
/// synthesized shell follows only after them, so the function's externally
/// visible name, parameter list, return type, generics and visibility are
/// those of the original.
pub proof fn lemma_signature_preserved(
    attrs: Seq<Seq<char>>,
    vis: Seq<char>,
    sig: Seq<char>,
    name: Seq<char>,
    body: Seq<char>,
    is_async: bool,
)
    ensures
        spec_instrumented_function(attrs, vis, sig, name, body, is_async).take(
            shell_header(attrs, vis, sig).len() as int,
        ) == shell_header(attrs, vis, sig),
        shell_header(attrs, vis, sig) == rendered_attrs(attrs) + vis + " "@ + sig + " {\n"@,
{
    assert(spec_instrumented_function(attrs, vis, sig, name, body, is_async).take(
        shell_header(attrs, vis, sig).len() as int,
    ) =~= shell_header(attrs, vis, sig));
}

/// Law (single splice): the instrumented function's text is exactly a
/// prefix, the original body, and a suffix, where the prefix is built only
/// from the original's attributes, visibility, signature and name, and the
/// suffix is fixed: the opaque body is re-emitted exactly once, unmodified.
/// For a plain body the prefix ends with the opening of the once-invoked
/// closure and the suffix begins with its invocation.
pub proof fn lemma_body_spliced_once(
    attrs: Seq<Seq<char>>,
    vis: Seq<char>,
    sig: Seq<char>,
    name: Seq<char>,
    body: Seq<char>,
    is_async: bool,
)
    ensures
        is_async ==> spec_instrumented_function(attrs, vis, sig, name, body, is_async) == (
        shell_header(attrs, vis, sig) + shell_prologue(name)) + body + shell_epilogue(),
        !is_async ==> spec_instrumented_function(attrs, vis, sig, name, body, is_async) == (
        shell_header(attrs, vis, sig) + shell_prologue(name) + "(move || "@) + body + (")()"@
            + shell_epilogue()),
{
    if !is_async {
        assert(spec_instrumented_function(attrs, vis, sig, name, body, is_async) =~= (
        shell_header(attrs, vis, sig) + shell_prologue(name) + "(move || "@) + body + (")()"@
            + shell_epilogue()));
    }
}

/// Law (single splice, expression form): the instrumented expression's text
/// is exactly a prefix, the original expression, and a suffix, where the
/// prefix depends only on the captured display label and the suffix is
/// fixed: the expression is re-emitted exactly once, unmodified.
pub proof fn lemma_expression_spliced_once(source: Seq<char>, expr: Seq<char>)
    ensures
        spec_instrumented_expression(source, expr) == (expr_label_open() + escaped(source)
            + expr_clock_start()) + expr + expr_epilogue(),
{
}

/// Renders the instrumented replacement of the function `f`.
pub fn render_instrumented_function(f: &FnConstruct) -> (r: String)
    ensures
        r@ == spec_instrumented_function(
            f.attrs.deep_view(),
            f.vis@,
            f.sig@,
            f.name@,
            f.body@,
            f.is_async,
        ),
{
    let mut out = String::new();
    let mut i: usize = 0;
    while i < f.attrs.len()
        invariant
            i <= f.attrs@.len(),
            out@ == rendered_attrs(f.attrs.deep_view().take(i as int)),
        decreases f.attrs@.len() - i,
    {
        out.append(f.attrs[i].as_str());
        out.append("\n");
        proof {
            assert(f.attrs.deep_view().take(i as int + 1).drop_last() =~= f.attrs.deep_view()
                .take(i as int));
            assert(f.attrs.deep_view().take(i as int + 1).last() == f.attrs@[i as int]@);
            assert(out@ =~= rendered_attrs(f.attrs.deep_view().take(i as int + 1)));
        }
        i = i + 1;
    }
    proof {
        assert(f.attrs.deep_view().take(f.attrs@.len() as int) =~= f.attrs.deep_view());
    }
    out.append(f.vis.as_str());
    out.append(" ");
    out.append(f.sig.as_str());
    out.append(" {\n");
    out.append("let __fn_name = \"");
    out.append(f.name.as_str());
    out.append("\";\nlet __start_time = ::std::time::Instant::now();\nlet res = ");
    if f.is_async {
        out.append(f.body.as_str());
    } else {
        out.append("(move || ");
        out.append(f.body.as_str());
        out.append(")()");
    }
    proof {
        assert(out@ =~= shell_header(f.attrs.deep_view(), f.vis@, f.sig@) + shell_prologue(
            f.name@,
        ) + spliced_body(f.body@, f.is_async));
    }
    out.append(";\nlet __elapsed_time = __start_time.elapsed();\nlet __elapsed_msg = ");
    out.append(
        "if __elapsed_time.checked_sub(::std::time::Duration::from_micros(1)).is_none() {\nformat!(\"function '{}()' took {}ns\", __fn_name, __elapsed_time.as_nanos())\n",
    );
    out.append(
        "} else if __elapsed_time.checked_sub(::std::time::Duration::from_millis(1)).is_none() {\nformat!(\"function '{}()' took {}\u{3bc}s\", __fn_name, __elapsed_time.as_micros())\n",
    );
    out.append(
        "} else if __elapsed_time.checked_sub(::std::time::Duration::from_millis(1000)).is_none() {\nformat!(\"function '{}()' took {}ms\", __fn_name, __elapsed_time.as_millis())\n",
    );
    out.append(
        "} else {\nlet __centis: u32 = __elapsed_time.subsec_nanos() / 10000000 + if __elapsed_time.subsec_nanos() % 10000000 >= 5000000 { 1 } else { 0 };\nformat!(\"function '{}()' took {}.{:02}s\", __fn_name, __elapsed_time.as_secs() + (__centis / 100) as u64, __centis % 100)\n};\n",
    );
    out.append("println!(\"{}\", __elapsed_msg);\nres\n}");
    proof {
        assert(out@ =~= spec_instrumented_function(
            f.attrs.deep_view(),
            f.vis@,
            f.sig@,
            f.name@,
            f.body@,
            f.is_async,
        ));
    }
    out
}

/// Renders the instrumented replacement of the expression `e`.
pub fn render_instrumented_expression(e: &ExprConstruct) -> (r: String)
    ensures
        r@ == spec_instrumented_expression(e.source_text@, e.expr_text@),
{
    let mut out = String::from_str(
        "{\nlet __str_expr = format!(\"[{}:{}] {}\", file!(), line!(), \"",
    );
    let label = escape_source_text(e.source_text.as_str());
    out.append(label.as_str());
    out.append("\");\nlet __start_time = ::std::time::Instant::now();\nlet res = ");
    out.append(e.expr_text.as_str());
    out.append(";\nlet __elapsed_time = __start_time.elapsed();\nlet __elapsed_msg = ");
    out.append(
        "if __elapsed_time.checked_sub(::std::time::Duration::from_micros(1)).is_none() {\nformat!(\"{} took {}ns\", __str_expr, __elapsed_time.as_nanos())\n",
    );
    out.append(
        "} else if __elapsed_time.checked_sub(::std::time::Duration::from_millis(1)).is_none() {\nformat!(\"{} took {}\u{3bc}s\", __str_expr, __elapsed_time.as_micros())\n",
    );
    out.append(
        "} else if __elapsed_time.checked_sub(::std::time::Duration::from_millis(1000)).is_none() {\nformat!(\"{} took {}ms\", __str_expr, __elapsed_time.as_millis())\n",
    );
    out.append(
        "} else {\nlet __centis: u32 = __elapsed_time.subsec_nanos() / 10000000 + if __elapsed_time.subsec_nanos() % 10000000 >= 5000000 { 1 } else { 0 };\nformat!(\"{} took {}.{:02}s\", __str_expr, __elapsed_time.as_secs() + (__centis / 100) as u64, __centis % 100)\n};\n",
    );
    out.append("println!(\"{}\", __elapsed_msg);\nres\n}");
    proof {
        assert(out@ =~= spec_instrumented_expression(e.source_text@, e.expr_text@));
    }
    out
}

} // verus!
