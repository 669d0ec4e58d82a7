//! The declaration model: what the macro core reads out of a user's type
//! declaration, and the diagnostics it can answer with.

use vstd::prelude::*;

verus! {

/// One named field of a record declaration: the field's identifier and the
/// source text of its type. The type text is never interpreted; it is only
/// forwarded verbatim into the emitted implementation, which delegates the
/// actual conversion to the per-type capability resolved by the compiler.
#[derive(Debug, PartialEq, Eq)]
pub struct NamedField {
    pub name: String,
    pub ty: String,
}

/// The data shape of a declaration, as handed to the parser.
#[derive(Debug, PartialEq, Eq)]
pub enum DeclShape {
    /// A record with named fields, in source declaration order.
    Named(Vec<NamedField>),
    /// A record with positional fields; only the type text of each field.
    Positional(Vec<String>),
    /// A record with no field list at all.
    Unit,
    /// Anything that is not a record (an enumeration, a union, ...).
    NonRecord,
}

/// A declaration as the compiler presents it: the identifier, how many
/// generic parameters it carries, and its data shape.
#[derive(Debug, PartialEq, Eq)]
pub struct RawDecl {
    pub ident: String,
    pub n_generics: usize,
    pub shape: DeclShape,
}

/// The normalized field list of an accepted declaration.
#[derive(Debug, PartialEq, Eq)]
pub enum FieldsKind {
    Named(Vec<NamedField>),
    Positional(Vec<String>),
}

/// The normalized description of an accepted declaration.
#[derive(Debug, PartialEq, Eq)]
pub struct DeriveStruct {
    pub ident: String,
    pub fields: FieldsKind,
}

/// A compile-time diagnostic: a single static message, emitted verbatim as a
/// compile-error directive.
#[derive(Debug, PartialEq, Eq)]
pub struct Error {
    pub what: &'static str,
}

impl Error {
    /// Wraps a diagnostic message as the error branch of a macro result.
    pub fn err<T>(what: &'static str) -> (r: Result<T, Error>)
        ensures
            r matches Err(e) && e.what@ == what@,
    {
        Err(Error { what })
    }
}

/// Diagnostic for a declaration that is not a record at all.
pub open spec fn non_record_diag() -> Seq<char> {
    "This macro currently only supports records."@
}

/// Diagnostic for a record with generic parameters.
pub open spec fn generic_diag() -> Seq<char> {
    "This macro doesn't currently support generic records."@
}

/// Diagnostic for a record with no fields.
pub open spec fn fieldless_diag() -> Seq<char> {
    "This macro doesn't support fieldless records."@
}

/// Diagnostic for a record with positional fields, which the emitters reject.
pub open spec fn tuple_diag() -> Seq<char> {
    "This macro doesn't currently support tuple records"@
}

} // verus!
