//! Immediate-mode output: the source text of the re-export shim that the
//! build writes once, pretty-printed through the external formatter.

use vstd::prelude::*;

verus! {

/// Whether a character may open an identifier.
pub open spec fn ident_start(c: char) -> bool {
    ('a' <= c && c <= 'z') || ('A' <= c && c <= 'Z') || c == '_'
}

/// Whether a character may continue an identifier.
pub open spec fn ident_continue(c: char) -> bool {
    ident_start(c) || ('0' <= c && c <= '9')
}

/// A plain identifier: nonempty, an identifier head, identifier tails.
pub open spec fn is_ident_text(s: Seq<char>) -> bool {
    s.len() > 0 && ident_start(s[0]) && forall|i: int| 1 <= i < s.len() ==> ident_continue(s[i])
}

/// What the external formatter returns for a source text. The result
/// depends on the text alone.
pub uninterp spec fn pretty_printed(s: Seq<char>) -> Seq<char>;

/// Whether the external parser accepts a text as a source file. The answer
/// depends on the text alone.
pub uninterp spec fn parses_as_file(s: Seq<char>) -> bool;

/// Relies on syn::parse_file to read the text as a source file and on
/// prettyplease::unparse to print it back formatted; both results depend on
/// the text alone.
///
/// The printer is not total: on some parseable files (a raw `macro_rules!`
/// body, verbatim items) it aborts rather than prints. This is therefore
/// called only on the shim texts built around two plain identifiers, whose
/// files hold nothing but `use` declarations and one plain module, kinds the
/// printer lays out without failing.
#[verifier::external_body]
fn format_rust_source(src: &String) -> (r: Option<String>)
    requires
        exists|a: Seq<char>, b: Seq<char>|
            #[trigger] build_source_text(a, b) == src@ && is_ident_text(a) && is_ident_text(b),
    ensures
        (r matches Some(t)) == parses_as_file(src@),
        (r matches Some(t)) ==> (r matches Some(t) && t@ == pretty_printed(src@)),
{
    match syn::parse_file(src.as_str()) {
        Ok(file) => Some(prettyplease::unparse(&file)),
        Err(_) => None,
    }
}

/// The unformatted shim: a re-export of the generation macro and the hidden
/// module that carries the forwarding machinery along.
pub open spec fn build_source_text(impl_ident: Seq<char>, macro_ident: Seq<char>) -> Seq<char> {
    "pub use "@ + impl_ident + "::"@ + macro_ident
        + ";#[doc(hidden)]pub mod __private{pub use delegate_trait::__private::delegate;}"@
}

/// The re-export shim for the given implementation crate and macro names:
/// the fixed template around the two identifiers, pretty-printed when the
/// external formatter accepts it, verbatim otherwise. The names must be
/// plain identifiers, as the specification file supplies them.
pub fn generate_delegate_build_string(crate_impl_ident: &String, macro_ident: &String) -> (r:
    String)
    requires
        is_ident_text(crate_impl_ident@),
        is_ident_text(macro_ident@),
    ensures
        parses_as_file(build_source_text(crate_impl_ident@, macro_ident@)) ==> r@
            == pretty_printed(build_source_text(crate_impl_ident@, macro_ident@)),
        !parses_as_file(build_source_text(crate_impl_ident@, macro_ident@)) ==> r@
            == build_source_text(crate_impl_ident@, macro_ident@),
{
    let mut text = String::new();
    text.append("pub use ");
    text.append(crate_impl_ident.as_str());
    text.append("::");
    text.append(macro_ident.as_str());
    text.append(";#[doc(hidden)]pub mod __private{pub use delegate_trait::__private::delegate;}");
    proof {
        assert(text@ =~= build_source_text(crate_impl_ident@, macro_ident@));
        assert(build_source_text(crate_impl_ident@, macro_ident@) == text@ && is_ident_text(
            crate_impl_ident@,
        ) && is_ident_text(macro_ident@));
    }
    match format_rust_source(&text) {
        Some(formatted) => formatted,
        None => text,
    }
}

} // verus!
