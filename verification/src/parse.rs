//! The declaration parser: turns a raw declaration into a normalized
//! description, or into the diagnostic that explains why it is unsupported.

use vstd::prelude::*;
use crate::decl::{DeclShape, DeriveStruct, Error, FieldsKind, RawDecl};
use crate::decl::{fieldless_diag, generic_diag, non_record_diag};

verus! {

/// Whether a declaration is a record with no fields: a record with an empty
/// named or positional field list, or one with no field list at all.
pub open spec fn is_fieldless(shape: DeclShape) -> bool {
    ||| shape matches DeclShape::Named(fs) && fs@.len() == 0
    ||| shape matches DeclShape::Positional(ts) && ts@.len() == 0
    ||| shape is Unit
}

/// The diagnostic the parser answers with, if any. Generic parameters are
/// checked first, then the data shape; `None` means the declaration is
/// accepted and normalized.
pub open spec fn parse_diag(decl: RawDecl) -> Option<Seq<char>> {
    if decl.n_generics > 0 {
        Some(generic_diag())
    } else if decl.shape is NonRecord {
        Some(non_record_diag())
    } else if is_fieldless(decl.shape) {
        Some(fieldless_diag())
    } else {
        None
    }
}

/// The field list of an accepted declaration, carried over unchanged.
pub open spec fn accepted_fields(shape: DeclShape) -> FieldsKind {
    match shape {
        DeclShape::Named(fs) => FieldsKind::Named(fs),
        DeclShape::Positional(ts) => FieldsKind::Positional(ts),
        _ => arbitrary(),
    }
}

/// Parses a raw declaration. Accepted are records, named or positional, with
/// at least one field and no generic parameters; everything else gets the
/// diagnostic that `parse_diag` fixes. An accepted declaration keeps its
/// identifier and its fields verbatim, in source order.
pub fn derive_data(decl: RawDecl) -> (r: Result<DeriveStruct, Error>)
    ensures
        parse_diag(decl) matches Some(m) ==> r matches Err(e) && e.what@ == m,
        parse_diag(decl) is None ==> (r matches Ok(d) && d.ident == decl.ident
            && d.fields == accepted_fields(decl.shape)),
{
    if decl.n_generics > 0 {
        return Error::err("This macro doesn't currently support generic records.");
    }
    match decl.shape {
        DeclShape::Named(fs) => {
            if fs.len() == 0 {
                Error::err("This macro doesn't support fieldless records.")
            } else {
                Ok(DeriveStruct { ident: decl.ident, fields: FieldsKind::Named(fs) })
            }
        }
        DeclShape::Positional(ts) => {
            if ts.len() == 0 {
                Error::err("This macro doesn't support fieldless records.")
            } else {
                Ok(DeriveStruct { ident: decl.ident, fields: FieldsKind::Positional(ts) })
            }
        }
        DeclShape::Unit => Error::err("This macro doesn't support fieldless records."),
        DeclShape::NonRecord => Error::err("This macro currently only supports records."),
    }
}

} // verus!
