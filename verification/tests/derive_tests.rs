use moonbind::decl::{DeclShape, DeriveStruct, FieldsKind, NamedField, RawDecl};
use moonbind::emit::{derive_from_lua, derive_to_lua, from_lua_impl};
use moonbind::parse::derive_data;

fn named(name: &str, ty: &str) -> NamedField {
    NamedField { name: name.to_string(), ty: ty.to_string() }
}

fn point_decl() -> RawDecl {
    RawDecl {
        ident: "Point".to_string(),
        n_generics: 0,
        shape: DeclShape::Named(vec![named("x", "i32"), named("y", "i32")]),
    }
}

fn pair_decl() -> RawDecl {
    RawDecl {
        ident: "Pair".to_string(),
        n_generics: 0,
        shape: DeclShape::Positional(vec!["i32".to_string(), "i32".to_string()]),
    }
}

fn expected_reader_for_point() -> String {
    let mut expected = String::new();
    expected.push_str("impl<'lua> ::mlua::FromLua<'lua> for Point");
    expected.push_str(
        " { fn from_lua(lua_value: ::mlua::Value<'lua>, lua: &'lua ::mlua::Lua) -> ::mlua::Result<Self> { match lua_value { ::mlua::Value::Table(table) => { ",
    );
    expected.push_str("let x = <i32 as ::mlua::FromLua>::from_lua(table.get(\"x\")?, lua)?; ");
    expected.push_str("let y = <i32 as ::mlua::FromLua>::from_lua(table.get(\"y\")?, lua)?; ");
    expected.push_str("Ok(Self { x, y, })");
    expected.push_str(
        " } _ => Err(::mlua::Error::FromLuaConversionError { from: lua_value.type_name(), to: \"Point\", message: ::std::option::Option::Some(::std::string::String::from(\"Lua value must be a table!\")), }), } } }",
    );
    expected
}

#[test]
fn parser_keeps_ident_and_field_order() {
    let parsed = derive_data(point_decl());
    let expected = DeriveStruct {
        ident: "Point".to_string(),
        fields: FieldsKind::Named(vec![named("x", "i32"), named("y", "i32")]),
    };
    assert_eq!(parsed, Ok(expected));
}

#[test]
fn parser_accepts_positional_records() {
    let parsed = derive_data(pair_decl());
    let expected = DeriveStruct {
        ident: "Pair".to_string(),
        fields: FieldsKind::Positional(vec!["i32".to_string(), "i32".to_string()]),
    };
    assert_eq!(parsed, Ok(expected));
}

#[test]
fn parser_rejects_non_records() {
    let decl = RawDecl {
        ident: "Choice".to_string(),
        n_generics: 0,
        shape: DeclShape::NonRecord,
    };
    match derive_data(decl) {
        Err(e) => assert_eq!(e.what, "This macro currently only supports records."),
        Ok(_) => panic!("a non-record declaration must be rejected"),
    }
}

#[test]
fn parser_rejects_generic_records() {
    let decl = RawDecl {
        ident: "Wrapper".to_string(),
        n_generics: 1,
        shape: DeclShape::Named(vec![named("inner", "T")]),
    };
    match derive_data(decl) {
        Err(e) => assert_eq!(e.what, "This macro doesn't currently support generic records."),
        Ok(_) => panic!("a generic declaration must be rejected"),
    }
}

#[test]
fn parser_rejects_fieldless_cookie() {
    let decl = RawDecl {
        ident: "Cookie".to_string(),
        n_generics: 0,
        shape: DeclShape::Named(vec![]),
    };
    match derive_data(decl) {
        Err(e) => assert_eq!(e.what, "This macro doesn't support fieldless records."),
        Ok(_) => panic!("a fieldless declaration must be rejected"),
    }
}

#[test]
fn parser_rejects_empty_positional_records() {
    let decl = RawDecl {
        ident: "Empty".to_string(),
        n_generics: 0,
        shape: DeclShape::Positional(vec![]),
    };
    match derive_data(decl) {
        Err(e) => assert_eq!(e.what, "This macro doesn't support fieldless records."),
        Ok(_) => panic!("a zero-field positional declaration must be rejected"),
    }
    let decl = RawDecl {
        ident: "Empty".to_string(),
        n_generics: 0,
        shape: DeclShape::Positional(vec![]),
    };
    let out = derive_from_lua(decl);
    assert_eq!(out, "compile_error!(\"This macro doesn't support fieldless records.\");");
}

#[test]
fn parser_rejects_unit_records() {
    let decl = RawDecl { ident: "Unit0".to_string(), n_generics: 0, shape: DeclShape::Unit };
    match derive_data(decl) {
        Err(e) => assert_eq!(e.what, "This macro doesn't support fieldless records."),
        Ok(_) => panic!("a unit declaration must be rejected"),
    }
}

#[test]
fn reader_impl_for_point() {
    assert_eq!(derive_from_lua(point_decl()), expected_reader_for_point());
}

#[test]
fn reader_impl_matches_unwrapped_emitter() {
    assert_eq!(from_lua_impl(point_decl()), Ok(expected_reader_for_point()));
}

#[test]
fn writer_impl_for_point() {
    let out = derive_to_lua(point_decl());
    let mut expected = String::new();
    expected.push_str("impl<'lua> ::mlua::ToLua<'lua> for Point");
    expected.push_str(
        " { fn to_lua(self, lua: &'lua ::mlua::Lua) -> ::mlua::Result<::mlua::Value<'lua>> { let table = lua.create_table()?; ",
    );
    expected.push_str("table.set(\"x\", <i32 as ::mlua::ToLua>::to_lua(self.x, &lua)?)?; ");
    expected.push_str("table.set(\"y\", <i32 as ::mlua::ToLua>::to_lua(self.y, &lua)?)?; ");
    expected.push_str("Ok(::mlua::Value::Table(table)) } }");
    assert_eq!(out, expected);
}

#[test]
fn writer_keeps_declaration_order_for_many_fields() {
    let decl = RawDecl {
        ident: "Megastruct".to_string(),
        n_generics: 0,
        shape: DeclShape::Named(vec![
            named("is_cool", "bool"),
            named("description", "String"),
            named("int", "i32"),
        ]),
    };
    let out = derive_to_lua(decl);
    let is_cool = out.find("table.set(\"is_cool\"").expect("first field is set");
    let description = out.find("table.set(\"description\"").expect("second field is set");
    let int = out.find("table.set(\"int\"").expect("third field is set");
    assert!(is_cool < description && description < int);
}

#[test]
fn writer_rejects_tuple_pair() {
    let out = derive_to_lua(pair_decl());
    let mut expected = String::new();
    expected.push_str("impl<'lua> ::mlua::ToLua<'lua> for Pair");
    expected.push_str(
        " { fn to_lua(self, lua: &'lua ::mlua::Lua) -> ::mlua::Result<::mlua::Value<'lua>> { let table = lua.create_table()?; ",
    );
    expected.push_str("compile_error!(\"This macro doesn't currently support tuple records\"); ");
    expected.push_str("Ok(::mlua::Value::Table(table)) } }");
    assert_eq!(out, expected);
}

#[test]
fn reader_bakes_tuple_diagnostic_in() {
    let out = derive_from_lua(pair_decl());
    let mut expected = String::new();
    expected.push_str("impl<'lua> ::mlua::FromLua<'lua> for Pair");
    expected.push_str(
        " { fn from_lua(lua_value: ::mlua::Value<'lua>, lua: &'lua ::mlua::Lua) -> ::mlua::Result<Self> { match lua_value { ::mlua::Value::Table(table) => { ",
    );
    expected.push_str("compile_error!(\"This macro doesn't currently support tuple records\");");
    expected.push_str(
        " } _ => Err(::mlua::Error::FromLuaConversionError { from: lua_value.type_name(), to: \"Pair\", message: ::std::option::Option::Some(::std::string::String::from(\"Lua value must be a table!\")), }), } } }",
    );
    assert_eq!(out, expected);
}

#[test]
fn entry_point_wraps_diagnostics_as_compile_errors() {
    let non_record = RawDecl {
        ident: "Choice".to_string(),
        n_generics: 0,
        shape: DeclShape::NonRecord,
    };
    let out = derive_from_lua(non_record);
    assert_eq!(out, "compile_error!(\"This macro currently only supports records.\");");

    let cookie = RawDecl {
        ident: "Cookie".to_string(),
        n_generics: 0,
        shape: DeclShape::Named(vec![]),
    };
    let out = derive_to_lua(cookie);
    assert_eq!(out, "compile_error!(\"This macro doesn't support fieldless records.\");");

    let generic = RawDecl {
        ident: "Wrapper".to_string(),
        n_generics: 2,
        shape: DeclShape::Named(vec![named("inner", "T")]),
    };
    let out = derive_to_lua(generic);
    assert_eq!(out, "compile_error!(\"This macro doesn't currently support generic records.\");");
}

#[test]
fn impl_headers_carry_only_the_lua_lifetime() {
    let reader = derive_from_lua(point_decl());
    let writer = derive_to_lua(point_decl());
    assert!(reader.starts_with("impl<'lua> ::mlua::FromLua<'lua> for Point {"));
    assert!(writer.starts_with("impl<'lua> ::mlua::ToLua<'lua> for Point {"));
}
