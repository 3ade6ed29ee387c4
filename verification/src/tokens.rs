//! The trusted boundary to the token machinery: type declarations for the
//! parser's types, names for what its calls return, and thin wrappers
//! around the calls the transformation makes.
//!
//! Parsing and printing are functions of the tokens alone — no chance, time
//! or machine state enters them — so each call's result carries a name, and
//! the contracts upstream speak of the input through those names.  What a
//! name denotes on a given value only the call itself can tell; the logic
//! downstream is verified for every value.

use vstd::prelude::*;

verus! {

#[verifier::external_type_specification]
#[verifier::external_body]
pub struct ExTokenStream(proc_macro2::TokenStream);

#[verifier::external_type_specification]
#[verifier::external_body]
pub struct ExItemFn(syn::ItemFn);

#[verifier::external_type_specification]
#[verifier::external_body]
pub struct ExAttribute(syn::Attribute);

#[verifier::external_type_specification]
#[verifier::external_body]
pub struct ExExpr(syn::Expr);

/// Whether syn::parse2::<syn::ItemFn> accepts these tokens as a function
/// item.
pub uninterp spec fn parses_as_fn(ts: proc_macro2::TokenStream) -> bool;

/// The function item that syn::parse2::<syn::ItemFn> yields for these
/// tokens, when it accepts them.
pub uninterp spec fn item_of(ts: proc_macro2::TokenStream) -> syn::ItemFn;

/// Whether syn::parse2::<syn::Expr> accepts these tokens as a single
/// expression.
pub uninterp spec fn parses_as_expr(ts: proc_macro2::TokenStream) -> bool;

/// The expression that syn::parse2::<syn::Expr> yields for these tokens,
/// when it accepts them.
pub uninterp spec fn expr_of(ts: proc_macro2::TokenStream) -> syn::Expr;

/// The display text of a token stream, as proc_macro2's Display prints it.
pub uninterp spec fn tokens_text(ts: proc_macro2::TokenStream) -> Seq<char>;

/// An expression's token text, as quote::ToTokens prints it.
pub uninterp spec fn expr_text_of(e: syn::Expr) -> Seq<char>;

/// A function item's attribute list, as syn::ItemFn's `attrs` field holds
/// it (syn hoists the body's inner attributes into the same list).
pub uninterp spec fn item_attrs(f: syn::ItemFn) -> Seq<syn::Attribute>;

/// An attribute's token text, as quote::ToTokens prints it.
pub uninterp spec fn attr_text_of(a: syn::Attribute) -> Seq<char>;

/// A function item's visibility qualifier text, as quote::ToTokens prints
/// it (empty for an inherited visibility).
pub uninterp spec fn item_vis_text(f: syn::ItemFn) -> Seq<char>;

/// A function item's full signature text, name, generics and return type
/// included, as quote::ToTokens prints it.
pub uninterp spec fn item_sig_text(f: syn::ItemFn) -> Seq<char>;

/// A function item's name, as its identifier prints.
pub uninterp spec fn item_name_text(f: syn::ItemFn) -> Seq<char>;

/// A function item's body block text, braces included, as quote::ToTokens
/// prints it.
pub uninterp spec fn item_body_text(f: syn::ItemFn) -> Seq<char>;

/// Whether a function item carries the `const` marker.
pub uninterp spec fn item_is_const(f: syn::ItemFn) -> bool;

/// Whether a function item carries the `async` marker.
pub uninterp spec fn item_is_async(f: syn::ItemFn) -> bool;

/// The token text of each attribute in a list, in order.
pub open spec fn attr_texts_of(attrs: Seq<syn::Attribute>) -> Seq<Seq<char>> {
    attrs.map_values(|a: syn::Attribute| attr_text_of(a))
}

/// Relies on syn::parse2::<syn::ItemFn>: parses the tokens as a function
/// item, or reports the parser's diagnostic text.  Parsing depends on the
/// tokens alone.
#[verifier::external_body]
pub(crate) fn parse_item_fn(ts: proc_macro2::TokenStream) -> (r: Result<syn::ItemFn, String>)
    ensures
        r is Ok <==> parses_as_fn(ts),
        r matches Ok(f) ==> f == item_of(ts),
{
    match syn::parse2::<syn::ItemFn>(ts) {
        Ok(f) => Ok(f),
        Err(e) => Err(e.to_string()),
    }
}

/// Relies on syn::parse2::<syn::Expr>: parses the tokens as a single
/// expression, or reports the parser's diagnostic text.  Parsing depends on
/// the tokens alone.
#[verifier::external_body]
pub(crate) fn parse_expr(ts: proc_macro2::TokenStream) -> (r: Result<syn::Expr, String>)
    ensures
        r is Ok <==> parses_as_expr(ts),
        r matches Ok(e) ==> e == expr_of(ts),
{
    match syn::parse2::<syn::Expr>(ts) {
        Ok(e) => Ok(e),
        Err(e) => Err(e.to_string()),
    }
}

/// Relies on proc_macro2::TokenStream's Display: the source text of the
/// tokens, as captured before any parsing.
#[verifier::external_body]
pub(crate) fn tokens_display(ts: &proc_macro2::TokenStream) -> (r: String)
    ensures
        r@ == tokens_text(*ts),
{
    ts.to_string()
}

/// Relies on syn::ItemFn's `attrs` field and Vec::clone: the item's
/// attribute list.
#[verifier::external_body]
pub(crate) fn item_fn_attrs(f: &syn::ItemFn) -> (r: Vec<syn::Attribute>)
    ensures
        r@ == item_attrs(*f),
{
    f.attrs.clone()
}

/// Relies on quote::ToTokens for syn::Attribute: the attribute's token text.
#[verifier::external_body]
pub(crate) fn attr_text(a: &syn::Attribute) -> (r: String)
    ensures
        r@ == attr_text_of(*a),
{
    quote::ToTokens::to_token_stream(a).to_string()
}

/// Relies on quote::ToTokens for syn::Visibility: the visibility qualifier's
/// token text.
#[verifier::external_body]
pub(crate) fn item_fn_vis_text(f: &syn::ItemFn) -> (r: String)
    ensures
        r@ == item_vis_text(*f),
{
    quote::ToTokens::to_token_stream(&f.vis).to_string()
}

/// Relies on quote::ToTokens for syn::Signature: the full signature's token
/// text.
#[verifier::external_body]
pub(crate) fn item_fn_sig_text(f: &syn::ItemFn) -> (r: String)
    ensures
        r@ == item_sig_text(*f),
{
    quote::ToTokens::to_token_stream(&f.sig).to_string()
}

/// Relies on quote::ToTokens for syn::Block: the body block's token text,
/// braces included.
#[verifier::external_body]
pub(crate) fn item_fn_body_text(f: &syn::ItemFn) -> (r: String)
    ensures
        r@ == item_body_text(*f),
{
    quote::ToTokens::to_token_stream(&f.block).to_string()
}

/// Relies on proc_macro2::Ident::to_string via syn::Signature's `ident`
/// field: the function's name.
#[verifier::external_body]
pub(crate) fn item_fn_name(f: &syn::ItemFn) -> (r: String)
    ensures
        r@ == item_name_text(*f),
{
    f.sig.ident.to_string()
}

/// Relies on syn::Signature's `constness` field: whether the function is
/// marked `const`.
#[verifier::external_body]
pub(crate) fn item_fn_is_const(f: &syn::ItemFn) -> (r: bool)
    ensures
        r == item_is_const(*f),
{
    f.sig.constness.is_some()
}

/// Relies on syn::Signature's `asyncness` field: whether the function is
/// marked `async`.
#[verifier::external_body]
pub(crate) fn item_fn_is_async(f: &syn::ItemFn) -> (r: bool)
    ensures
        r == item_is_async(*f),
{
    f.sig.asyncness.is_some()
}

/// Relies on quote::ToTokens for syn::Expr: the parsed expression's token
/// text.
#[verifier::external_body]
pub(crate) fn expr_tokens_text(e: &syn::Expr) -> (r: String)
    ensures
        r@ == expr_text_of(*e),
{
    quote::ToTokens::to_token_stream(e).to_string()
}

} // verus!
