//! The code emitters: each turns a normalized record description into the
//! source text of one direction of the bridge (an implementation of the
//! from-script-value or to-script-value capability), or into a compile-error
//! directive baked into the emitted tokens. The two macro entry points glue
//! the parser and the emitters together.

use vstd::prelude::*;
use crate::decl::{DeriveStruct, FieldsKind, NamedField, RawDecl, tuple_diag};
use crate::parse::{accepted_fields, derive_data, parse_diag};

verus! {

/// A compile-error directive carrying a diagnostic message verbatim.
pub open spec fn compile_error_directive(msg: Seq<char>) -> Seq<char> {
    "compile_error!(\""@ + msg + "\");"@
}

/// The reader statement emitted for one named field: retrieve the table
/// entry under the field's name and delegate conversion to the field type's
/// from-script-value capability, short-circuiting on failure.
pub open spec fn reader_field_stmt(f: NamedField) -> Seq<char> {
    "let "@ + f.name@ + " = <"@ + f.ty@ + " as ::mlua::FromLua>::from_lua(table.get(\""@
        + f.name@ + "\")?, lua)?; "@
}

/// The reader statements for a field list, in source declaration order.
pub open spec fn reader_field_stmts(fs: Seq<NamedField>) -> Seq<char>
    decreases fs.len(),
{
    if fs.len() == 0 {
        Seq::empty()
    } else {
        reader_field_stmts(fs.drop_last()) + reader_field_stmt(fs.last())
    }
}

/// The field names of the record constructor, in source declaration order.
pub open spec fn ident_list(fs: Seq<NamedField>) -> Seq<char>
    decreases fs.len(),
{
    if fs.len() == 0 {
        Seq::empty()
    } else {
        ident_list(fs.drop_last()) + fs.last().name@ + ", "@
    }
}

/// The body of the reader's table arm: field retrievals followed by the
/// record constructor for named fields; for positional fields, the tuple
/// diagnostic baked in as a compile-error directive.
pub open spec fn reader_success_expr(fields: FieldsKind) -> Seq<char> {
    match fields {
        FieldsKind::Named(fs) => reader_field_stmts(fs@) + "Ok(Self { "@ + ident_list(fs@)
            + "})"@,
        FieldsKind::Positional(_) => compile_error_directive(tuple_diag()),
    }
}

/// The full emitted from-script-value implementation for a record: a shape
/// check that answers any non-table value with a conversion error naming the
/// actual value's type name and the record's identifier, and the table arm
/// of `reader_success_expr`.
pub open spec fn reader_impl_text(ident: Seq<char>, fields: FieldsKind) -> Seq<char> {
    "impl<'lua> ::mlua::FromLua<'lua> for "@ + ident
        + " { fn from_lua(lua_value: ::mlua::Value<'lua>, lua: &'lua ::mlua::Lua) -> ::mlua::Result<Self> { match lua_value { ::mlua::Value::Table(table) => { "@
        + reader_success_expr(fields)
        + " } _ => Err(::mlua::Error::FromLuaConversionError { from: lua_value.type_name(), to: \""@
        + ident
        + "\", message: ::std::option::Option::Some(::std::string::String::from(\"Lua value must be a table!\")), }), } } }"@
}

/// The writer statement emitted for one named field: move the field out of
/// the record, delegate conversion to the field type's to-script-value
/// capability, and set the result on the table under the field's name,
/// short-circuiting on failure.
pub open spec fn writer_field_stmt(f: NamedField) -> Seq<char> {
    "table.set(\""@ + f.name@ + "\", <"@ + f.ty@ + " as ::mlua::ToLua>::to_lua(self."@
        + f.name@ + ", &lua)?)?; "@
}

/// The writer statements for a field list, in source declaration order.
pub open spec fn writer_field_stmts(fs: Seq<NamedField>) -> Seq<char>
    decreases fs.len(),
{
    if fs.len() == 0 {
        Seq::empty()
    } else {
        writer_field_stmts(fs.drop_last()) + writer_field_stmt(fs.last())
    }
}

/// The field-population section of the writer: the per-field setters for
/// named fields; for positional fields, the tuple diagnostic baked in.
pub open spec fn writer_setters(fields: FieldsKind) -> Seq<char> {
    match fields {
        FieldsKind::Named(fs) => writer_field_stmts(fs@),
        FieldsKind::Positional(_) => compile_error_directive(tuple_diag()) + " "@,
    }
}

/// The full emitted to-script-value implementation for a record: create a
/// fresh table, populate it field by field in declaration order, and return
/// it wrapped in the table-valued variant.
pub open spec fn writer_impl_text(ident: Seq<char>, fields: FieldsKind) -> Seq<char> {
    "impl<'lua> ::mlua::ToLua<'lua> for "@ + ident
        + " { fn to_lua(self, lua: &'lua ::mlua::Lua) -> ::mlua::Result<::mlua::Value<'lua>> { let table = lua.create_table()?; "@
        + writer_setters(fields)
        + "Ok(::mlua::Value::Table(table)) } }"@
}

/// The emitted implementations carry exactly the lifetime that the
/// conversion capabilities require and no other parameters: whatever the
/// record looks like, each impl header is the fixed text whose only
/// parameter list is `<'lua>`, followed directly by the record's identifier.
pub proof fn lemma_no_spurious_generics(ident: Seq<char>, fields: FieldsKind)
    ensures
        reader_impl_text(ident, fields).take("impl<'lua> ::mlua::FromLua<'lua> for "@.len() as int)
            == "impl<'lua> ::mlua::FromLua<'lua> for "@,
        reader_impl_text(ident, fields).skip("impl<'lua> ::mlua::FromLua<'lua> for "@.len() as int).take(
            ident.len() as int,
        ) == ident,
        writer_impl_text(ident, fields).take("impl<'lua> ::mlua::ToLua<'lua> for "@.len() as int)
            == "impl<'lua> ::mlua::ToLua<'lua> for "@,
        writer_impl_text(ident, fields).skip("impl<'lua> ::mlua::ToLua<'lua> for "@.len() as int).take(
            ident.len() as int,
        ) == ident,
{
    assert(reader_impl_text(ident, fields).take("impl<'lua> ::mlua::FromLua<'lua> for "@.len() as int)
        =~= "impl<'lua> ::mlua::FromLua<'lua> for "@);
    assert(reader_impl_text(ident, fields).skip("impl<'lua> ::mlua::FromLua<'lua> for "@.len() as int).take(
        ident.len() as int,
    ) =~= ident);
    assert(writer_impl_text(ident, fields).take("impl<'lua> ::mlua::ToLua<'lua> for "@.len() as int)
        =~= "impl<'lua> ::mlua::ToLua<'lua> for "@);
    assert(writer_impl_text(ident, fields).skip("impl<'lua> ::mlua::ToLua<'lua> for "@.len() as int).take(
        ident.len() as int,
    ) =~= ident);
}

/// Appends the reader statement of one field.
fn push_reader_field(out: &mut String, f: &NamedField)
    ensures
        final(out)@ == old(out)@ + reader_field_stmt(*f),
{
    out.append("let ");
    out.append(f.name.as_str());
    out.append(" = <");
    out.append(f.ty.as_str());
    out.append(" as ::mlua::FromLua>::from_lua(table.get(\"");
    out.append(f.name.as_str());
    out.append("\")?, lua)?; ");
    proof {
        assert(out@ =~= old(out)@ + reader_field_stmt(*f));
    }
}

/// Appends the writer statement of one field.
fn push_writer_field(out: &mut String, f: &NamedField)
    ensures
        final(out)@ == old(out)@ + writer_field_stmt(*f),
{
    out.append("table.set(\"");
    out.append(f.name.as_str());
    out.append("\", <");
    out.append(f.ty.as_str());
    out.append(" as ::mlua::ToLua>::to_lua(self.");
    out.append(f.name.as_str());
    out.append(", &lua)?)?; ");
    proof {
        assert(out@ =~= old(out)@ + writer_field_stmt(*f));
    }
}

/// Appends a compile-error directive carrying the tuple-record diagnostic.
fn push_tuple_diag(out: &mut String)
    ensures
        final(out)@ == old(out)@ + compile_error_directive(tuple_diag()),
{
    out.append("compile_error!(\"");
    out.append("This macro doesn't currently support tuple records");
    out.append("\");");
    proof {
        assert(out@ =~= old(out)@ + compile_error_directive(tuple_diag()));
    }
}

/// Emits the body of the reader's table arm for a field list.
pub fn gen_self_expr(fields: &FieldsKind) -> (r: String)
    ensures
        r@ == reader_success_expr(*fields),
{
    match fields {
        FieldsKind::Named(fs) => {
            let n = fs.len();
            let mut out = String::new();
            let mut i: usize = 0;
            while i < n
                invariant
                    i <= n,
                    n == fs@.len(),
                    out@ == reader_field_stmts(fs@.take(i as int)),
                decreases n - i,
            {
                push_reader_field(&mut out, &fs[i]);
                proof {
                    assert(fs@.take(i + 1).drop_last() =~= fs@.take(i as int));
                    assert(out@ == reader_field_stmts(fs@.take(i + 1)));
                }
                i = i + 1;
            }
            proof {
                assert(fs@.take(n as int) =~= fs@);
            }
            out.append("Ok(Self { ");
            let mut j: usize = 0;
            while j < n
                invariant
                    j <= n,
                    n == fs@.len(),
                    out@ == reader_field_stmts(fs@) + "Ok(Self { "@ + ident_list(
                        fs@.take(j as int),
                    ),
                decreases n - j,
            {
                out.append(fs[j].name.as_str());
                out.append(", ");
                proof {
                    assert(fs@.take(j + 1).drop_last() =~= fs@.take(j as int));
                    assert(out@ =~= reader_field_stmts(fs@) + "Ok(Self { "@ + ident_list(
                        fs@.take(j + 1),
                    ));
                }
                j = j + 1;
            }
            out.append("})");
            proof {
                assert(out@ =~= reader_success_expr(*fields));
            }
            out
        }
        FieldsKind::Positional(_) => {
            let mut out = String::new();
            push_tuple_diag(&mut out);
            proof {
                assert(out@ =~= reader_success_expr(*fields));
            }
            out
        }
    }
}

/// Emits the field-population section of the writer for a field list.
pub fn gen_set_fields(fields: &FieldsKind) -> (r: String)
    ensures
        r@ == writer_setters(*fields),
{
    match fields {
        FieldsKind::Named(fs) => {
            let n = fs.len();
            let mut out = String::new();
            let mut i: usize = 0;
            while i < n
                invariant
                    i <= n,
                    n == fs@.len(),
                    out@ == writer_field_stmts(fs@.take(i as int)),
                decreases n - i,
            {
                push_writer_field(&mut out, &fs[i]);
                proof {
                    assert(fs@.take(i + 1).drop_last() =~= fs@.take(i as int));
                    assert(out@ == writer_field_stmts(fs@.take(i + 1)));
                }
                i = i + 1;
            }
            proof {
                assert(fs@.take(n as int) =~= fs@);
            }
            out
        }
        FieldsKind::Positional(_) => {
            let mut out = String::new();
            push_tuple_diag(&mut out);
            out.append(" ");
            proof {
                assert(out@ =~= writer_setters(*fields));
            }
            out
        }
    }
}

/// Parses a declaration and, on success, emits the full from-script-value
/// implementation; a rejected declaration hands back its diagnostic.
pub fn from_lua_impl(decl: RawDecl) -> (r: Result<String, crate::decl::Error>)
    ensures
        parse_diag(decl) matches Some(m) ==> r matches Err(e) && e.what@ == m,
        parse_diag(decl) is None ==> (r matches Ok(t) && t@ == reader_impl_text(
            decl.ident@,
            accepted_fields(decl.shape),
        )),
{
    let d: DeriveStruct = match derive_data(decl) {
        Ok(d) => d,
        Err(e) => {
            return Err(e);
        }
    };
    let self_expr = gen_self_expr(&d.fields);
    let mut out = String::new();
    out.append("impl<'lua> ::mlua::FromLua<'lua> for ");
    out.append(d.ident.as_str());
    out.append(
        " { fn from_lua(lua_value: ::mlua::Value<'lua>, lua: &'lua ::mlua::Lua) -> ::mlua::Result<Self> { match lua_value { ::mlua::Value::Table(table) => { ",
    );
    out.append(self_expr.as_str());
    out.append(
        " } _ => Err(::mlua::Error::FromLuaConversionError { from: lua_value.type_name(), to: \"",
    );
    out.append(d.ident.as_str());
    out.append(
        "\", message: ::std::option::Option::Some(::std::string::String::from(\"Lua value must be a table!\")), }), } } }",
    );
    proof {
        assert(out@ =~= reader_impl_text(decl.ident@, accepted_fields(decl.shape)));
    }
    Ok(out)
}

/// Parses a declaration and, on success, emits the full to-script-value
/// implementation; a rejected declaration hands back its diagnostic.
pub fn to_lua_impl(decl: RawDecl) -> (r: Result<String, crate::decl::Error>)
    ensures
        parse_diag(decl) matches Some(m) ==> r matches Err(e) && e.what@ == m,
        parse_diag(decl) is None ==> (r matches Ok(t) && t@ == writer_impl_text(
            decl.ident@,
            accepted_fields(decl.shape),
        )),
{
    let d: DeriveStruct = match derive_data(decl) {
        Ok(d) => d,
        Err(e) => {
            return Err(e);
        }
    };
    let field_setters = gen_set_fields(&d.fields);
    let mut out = String::new();
    out.append("impl<'lua> ::mlua::ToLua<'lua> for ");
    out.append(d.ident.as_str());
    out.append(
        " { fn to_lua(self, lua: &'lua ::mlua::Lua) -> ::mlua::Result<::mlua::Value<'lua>> { let table = lua.create_table()?; ",
    );
    out.append(field_setters.as_str());
    out.append("Ok(::mlua::Value::Table(table)) } }");
    proof {
        assert(out@ =~= writer_impl_text(decl.ident@, accepted_fields(decl.shape)));
    }
    Ok(out)
}

/// What the reader entry point hands back to the compiler: the emitted
/// implementation for an accepted declaration, or a fragment consisting
/// solely of a compile-error directive carrying the diagnostic.
pub open spec fn reader_output_text(decl: RawDecl) -> Seq<char> {
    match parse_diag(decl) {
        Some(m) => compile_error_directive(m),
        None => reader_impl_text(decl.ident@, accepted_fields(decl.shape)),
    }
}

/// What the writer entry point hands back to the compiler.
pub open spec fn writer_output_text(decl: RawDecl) -> Seq<char> {
    match parse_diag(decl) {
        Some(m) => compile_error_directive(m),
        None => writer_impl_text(decl.ident@, accepted_fields(decl.shape)),
    }
}

/// Appends a compile-error directive carrying a diagnostic message.
fn push_compile_error(out: &mut String, what: &str)
    ensures
        final(out)@ == old(out)@ + compile_error_directive(what@),
{
    out.append("compile_error!(\"");
    out.append(what);
    out.append("\");");
    proof {
        assert(out@ =~= old(out)@ + compile_error_directive(what@));
    }
}

/// The reader entry point: one-shot from declaration to emitted fragment.
pub fn derive_from_lua(decl: RawDecl) -> (r: String)
    ensures
        r@ == reader_output_text(decl),
{
    match from_lua_impl(decl) {
        Ok(t) => t,
        Err(e) => {
            let mut out = String::new();
            push_compile_error(&mut out, e.what);
            out
        }
    }
}

/// The writer entry point: one-shot from declaration to emitted fragment.
pub fn derive_to_lua(decl: RawDecl) -> (r: String)
    ensures
        r@ == writer_output_text(decl),
{
    match to_lua_impl(decl) {
        Ok(t) => t,
        Err(e) => {
            let mut out = String::new();
            push_compile_error(&mut out, e.what);
            out
        }
    }
}

} // verus!
