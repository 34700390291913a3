//! The classification predicate: does one function declaration mark an
//! export-boundary function?

use vstd::prelude::*;
use crate::span::LineColumnEnds;

verus! {

/// What the classification predicate reads of one function declaration,
/// together with the declaration's lexical extent.
#[derive(Debug)]
pub struct FnDecl {
    /// The declaration is explicitly `pub` at its point of declaration.
    pub is_public: bool,
    /// For each attribute on the declaration, in source order: the path's
    /// plain identifier, or `None` where the path is not a plain identifier.
    pub attr_idents: Vec<Option<String>>,
    /// The declared calling convention: `None` where the signature declares
    /// no convention at all, `Some(None)` for an `extern` with no name, and
    /// `Some(Some(name))` for an explicit convention string.
    pub abi: Option<Option<String>>,
    /// The declaration's extent, from its first attribute or visibility
    /// keyword through the closing delimiter of its body.
    pub span: LineColumnEnds,
}

/// One attribute carries the marker that suppresses symbol-name mangling.
pub open spec fn is_marker_ident(a: Option<String>) -> bool {
    a is Some && a->0@ == "no_mangle"@
}

/// Some attribute on the declaration is the no-mangle marker.
pub open spec fn has_no_mangle_attr(attrs: Seq<Option<String>>) -> bool {
    exists|i: int| 0 <= i < attrs.len() && is_marker_ident(attrs[i])
}

/// The declared calling convention is compatible with a foreign export:
/// either none is declared at all, or the declared name is exactly `"C"`.
/// An `extern` with no name declares a convention but no name, so it is
/// not an exact match.
pub open spec fn convention_allows_export(abi: Option<Option<String>>) -> bool {
    match abi {
        None => true,
        Some(None) => false,
        Some(Some(name)) => name@ == "C"@,
    }
}

/// The export-boundary signature: explicitly public, marked no-mangle, and
/// with a compatible (or absent) calling convention.
pub open spec fn is_export_boundary_fn(d: FnDecl) -> bool {
    d.is_public && has_no_mangle_attr(d.attr_idents@) && convention_allows_export(d.abi)
}

/// All three conditions are required: a declaration that is not public
/// never matches, one without the no-mangle marker never matches, and one
/// whose declared convention is neither absent nor exactly `"C"` never
/// matches — whatever the other two conditions say.
pub proof fn lemma_all_three_conditions_required(d: FnDecl)
    ensures
        !d.is_public ==> !is_export_boundary_fn(d),
        !has_no_mangle_attr(d.attr_idents@) ==> !is_export_boundary_fn(d),
        !convention_allows_export(d.abi) ==> !is_export_boundary_fn(d),
{
}

/// A missing convention defaults to a pass: a public declaration that
/// carries the no-mangle marker and declares no calling convention at all
/// is a match.
pub proof fn lemma_missing_convention_defaults_to_pass(d: FnDecl)
    requires
        d.is_public,
        has_no_mangle_attr(d.attr_idents@),
        d.abi is None,
    ensures
        is_export_boundary_fn(d),
{
}

/// String equality, decided through owned copies.
fn str_eq(a: &str, b: &str) -> (r: bool)
    ensures
        r == (a@ == b@),
{
    let sa: String = a.to_owned();
    let sb: String = b.to_owned();
    sa == sb
}

/// Scans the attribute identifiers for the no-mangle marker.
fn has_marker_attribute(attrs: &Vec<Option<String>>) -> (r: bool)
    ensures
        r == has_no_mangle_attr(attrs@),
{
    let mut i: usize = 0;
    while i < attrs.len()
        invariant
            i <= attrs.len(),
            forall|j: int| 0 <= j < i ==> !is_marker_ident(attrs@[j]),
        decreases attrs.len() - i,
    {
        match &attrs[i] {
            Some(ident) => {
                if str_eq(ident.as_str(), "no_mangle") {
                    return true;
                }
            },
            None => {},
        }
        i += 1;
    }
    false
}

/// Decides whether the given declaration is an export-boundary function:
/// public, carrying the no-mangle marker, and declaring either no calling
/// convention or exactly the `"C"` one. The three conditions are evaluated
/// independently and all must hold.
pub fn is_no_mangle_pub_export_c_fn(node: &FnDecl) -> (r: bool)
    ensures
        r == is_export_boundary_fn(*node),
{
    let is_public = node.is_public;
    let is_no_mangle = has_marker_attribute(&node.attr_idents);
    let is_extern_c = match &node.abi {
        None => true,
        Some(None) => false,
        Some(Some(name)) => str_eq(name.as_str(), "C"),
    };
    is_public && is_no_mangle && is_extern_c
}

} // verus!
