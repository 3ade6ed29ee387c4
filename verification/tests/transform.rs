//! The transformation itself: parsing, eligibility, and the shape of the
//! synthesized construct.

use time_this::{time, time_this, TransformError};

fn count_occurrences(hay: &str, needle: &str) -> usize {
    let mut count: usize = 0;
    let mut rest = hay;
    while let Some(pos) = rest.find(needle) {
        count += 1;
        rest = &rest[pos + needle.len()..];
    }
    count
}

fn display_of(source: &str) -> String {
    source.parse::<proc_macro2::TokenStream>().unwrap().to_string()
}

#[test]
fn instruments_add_function() {
    let ts: proc_macro2::TokenStream = "fn add(a: u32, b: u32) -> u32 { a + b }".parse().unwrap();
    let out = time_this(ts).unwrap();

    let sig = display_of("fn add(a: u32, b: u32) -> u32");
    let body = display_of("{ a + b }");
    assert!(out.starts_with(&format!(" {} {{\n", sig)));
    assert!(out.contains("let __fn_name = \"add\";\n"));
    assert!(out.contains(&format!("let res = (move || {})();\n", body)));
    assert!(out.contains("let __start_time = ::std::time::Instant::now();\n"));
    assert!(out.contains("function '{}()' took {}ns"));
    assert!(out.ends_with("res\n}"));

    let reparsed: syn::ItemFn = syn::parse_str(&out).unwrap();
    let reparsed_sig = quote::ToTokens::to_token_stream(&reparsed.sig).to_string();
    assert_eq!(reparsed_sig, sig);
}

#[test]
fn preserves_attributes_visibility_and_generics() {
    let source = "#[inline]\n#[must_use]\npub fn id<T: Clone>(x: T) -> T { x }";
    let ts: proc_macro2::TokenStream = source.parse().unwrap();
    let out = time_this(ts).unwrap();

    assert!(out.starts_with(&format!(
        "{}\n{}\npub {} {{\n",
        display_of("#[inline]"),
        display_of("#[must_use]"),
        display_of("fn id<T: Clone>(x: T) -> T")
    )));

    let reparsed: syn::ItemFn = syn::parse_str(&out).unwrap();
    assert_eq!(reparsed.attrs.len(), 2);
    assert_eq!(
        quote::ToTokens::to_token_stream(&reparsed.vis).to_string(),
        "pub"
    );
    assert_eq!(
        quote::ToTokens::to_token_stream(&reparsed.sig).to_string(),
        display_of("fn id<T: Clone>(x: T) -> T")
    );
}

#[test]
fn body_is_spliced_exactly_once() {
    let ts: proc_macro2::TokenStream =
        "fn recursive(n: u64) -> u64 { if n < 2 { 1 } else { recursive(n - 1) + recursive(n - 2) } }"
            .parse()
            .unwrap();
    let out = time_this(ts).unwrap();
    let body =
        display_of("{ if n < 2 { 1 } else { recursive(n - 1) + recursive(n - 2) } }");
    assert_eq!(count_occurrences(&out, &body), 1);
    assert!(syn::parse_str::<syn::ItemFn>(&out).is_ok());
}

#[test]
fn instruments_zero_argument_function() {
    let ts: proc_macro2::TokenStream = "pub fn try_compile() { }".parse().unwrap();
    let out = time_this(ts).unwrap();
    assert!(out.contains("let __fn_name = \"try_compile\";\n"));
    assert!(syn::parse_str::<syn::ItemFn>(&out).is_ok());
}

#[test]
fn rejects_const_functions() {
    let ts: proc_macro2::TokenStream = "const fn const_fn(items: &[usize]) -> usize { 0 }"
        .parse()
        .unwrap();
    match time_this(ts) {
        Err(TransformError::ConstFunctionUnsupported(name)) => {
            assert_eq!(name, "const_fn");
        }
        other => panic!("expected a const rejection, got {:?}", other.is_ok()),
    }
}

#[test]
fn const_rejection_carries_the_build_diagnostic() {
    let ts: proc_macro2::TokenStream = "const fn five() -> usize { 5 }".parse().unwrap();
    let err = time_this(ts).unwrap_err();
    assert_eq!(err.message(), "This macro does not work with `const fn`.");
}

#[test]
fn accepts_async_functions_and_binds_their_body_directly() {
    let ts: proc_macro2::TokenStream = "async fn f(x: u8) -> u8 { x }".parse().unwrap();
    let out = time_this(ts).unwrap();
    let body = display_of("{ x }");
    assert!(out.contains(&format!("let res = {};\n", body)));
    assert!(!out.contains("move ||"));
}

#[test]
fn rejects_malformed_function_input() {
    let ts: proc_macro2::TokenStream = "struct S { x: u32 }".parse().unwrap();
    match time_this(ts) {
        Err(TransformError::MalformedFunction(msg)) => assert!(!msg.is_empty()),
        other => panic!("expected a malformed-function rejection, got {:?}", other.is_ok()),
    }
}

#[test]
fn instruments_add_expression() {
    let ts: proc_macro2::TokenStream = "add(3, 5)".parse().unwrap();
    let label = ts.to_string();
    let out = time(ts).unwrap();

    assert!(out.starts_with(&format!(
        "{{\nlet __str_expr = format!(\"[{{}}:{{}}] {{}}\", file!(), line!(), \"{}\");\n",
        label
    )));
    assert!(out.contains(&format!("let res = {};\n", label)));
    assert!(out.contains("{} took {}ns"));
    assert!(out.ends_with("res\n}"));
    assert!(syn::parse_str::<syn::Expr>(&out).is_ok());
}

#[test]
fn expression_is_spliced_exactly_once() {
    let ts: proc_macro2::TokenStream = "compute(1 + 2, 3)".parse().unwrap();
    let expr = display_of("compute(1 + 2, 3)");
    let out = time(ts).unwrap();
    assert_eq!(count_occurrences(&out, &format!("let res = {};\n", expr)), 1);
}

#[test]
fn escapes_string_literals_in_expression_labels() {
    let ts: proc_macro2::TokenStream = "concat(\"a\", 1)".parse().unwrap();
    let out = time(ts).unwrap();
    assert!(out.contains("\\\"a\\\""));
    assert!(syn::parse_str::<syn::Expr>(&out).is_ok());
}

#[test]
fn rejects_malformed_expression_input() {
    let ts: proc_macro2::TokenStream = "1 +".parse().unwrap();
    match time(ts) {
        Err(TransformError::MalformedExpression(msg)) => assert!(!msg.is_empty()),
        other => panic!("expected a malformed-expression rejection, got {:?}", other.is_ok()),
    }
}
