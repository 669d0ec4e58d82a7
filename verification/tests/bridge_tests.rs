use moonbind::bridge::{read_record, write_record, FieldSpec};
use moonbind::script::{conv_from, conv_to, table_get, FieldKind, FieldVal, ScriptValue, TableEntry};

fn field(name: &str, kind: FieldKind) -> FieldSpec {
    FieldSpec { name: name.to_string(), kind }
}

fn point_fields() -> Vec<FieldSpec> {
    vec![field("x", FieldKind::Integer), field("y", FieldKind::Integer)]
}

#[test]
fn writer_builds_point_table_in_order() {
    let table = write_record(&point_fields(), vec![FieldVal::I(3), FieldVal::I(-4)]);
    match table {
        ScriptValue::Table(entries) => {
            assert_eq!(entries.len(), 2);
            assert_eq!(entries[0].key, "x");
            assert_eq!(entries[0].value, ScriptValue::Integer(3));
            assert_eq!(entries[1].key, "y");
            assert_eq!(entries[1].value, ScriptValue::Integer(-4));
        }
        other => panic!("the writer must produce a table, got {:?}", other),
    }
}

#[test]
fn point_round_trips() {
    let fields = point_fields();
    let table = write_record(&fields, vec![FieldVal::I(3), FieldVal::I(-4)]);
    let (result, accessed) = read_record(&"Point".to_string(), &fields, table);
    assert_eq!(result, Ok(vec![FieldVal::I(3), FieldVal::I(-4)]));
    assert_eq!(accessed, vec!["x".to_string(), "y".to_string()]);
}

#[test]
fn heterogeneous_record_round_trips() {
    let fields = vec![
        field("is_cool", FieldKind::Boolean),
        field("description", FieldKind::Str),
        field("int", FieldKind::Integer),
    ];
    let values = vec![
        FieldVal::B(true),
        FieldVal::S("This is a MEGASTRUCT because IT'S HUGE".to_string()),
        FieldVal::I(i64::MIN),
    ];
    let table = write_record(&fields, values);
    let (result, accessed) = read_record(&"Megastruct".to_string(), &fields, table);
    let expected = vec![
        FieldVal::B(true),
        FieldVal::S("This is a MEGASTRUCT because IT'S HUGE".to_string()),
        FieldVal::I(i64::MIN),
    ];
    assert_eq!(result, Ok(expected));
    assert_eq!(
        accessed,
        vec!["is_cool".to_string(), "description".to_string(), "int".to_string()]
    );
}

#[test]
fn reader_rejects_non_table_values() {
    let (result, accessed) = read_record(&"R".to_string(), &point_fields(), ScriptValue::Integer(7));
    let err = result.expect_err("an integer is not a table");
    assert_eq!(err.from, "integer");
    assert_eq!(err.to, "R");
    assert_eq!(err.message, Some("Lua value must be a table!".to_string()));
    assert!(accessed.is_empty());
}

#[test]
fn reader_reports_each_non_table_variant() {
    for (value, name) in [
        (ScriptValue::Nil, "nil"),
        (ScriptValue::Boolean(true), "boolean"),
        (ScriptValue::Str("t".to_string()), "string"),
    ] {
        let (result, _) = read_record(&"Point".to_string(), &point_fields(), value);
        let err = result.expect_err("only a table passes the shape check");
        assert_eq!(err.from, name);
        assert_eq!(err.to, "Point");
    }
}

#[test]
fn missing_field_fails_without_reading_later_fields() {
    let table = ScriptValue::Table(vec![TableEntry {
        key: "y".to_string(),
        value: ScriptValue::Integer(2),
    }]);
    let (result, accessed) = read_record(&"Point".to_string(), &point_fields(), table);
    let err = result.expect_err("the integer converter rejects nil");
    assert_eq!(err.from, "nil");
    assert_eq!(err.to, "integer");
    assert_eq!(err.message, None);
    assert_eq!(accessed, vec!["x".to_string()]);
}

#[test]
fn first_failure_short_circuits() {
    let fields = vec![
        field("a", FieldKind::Integer),
        field("b", FieldKind::Boolean),
        field("c", FieldKind::Integer),
    ];
    let table = ScriptValue::Table(vec![
        TableEntry { key: "a".to_string(), value: ScriptValue::Integer(1) },
        TableEntry { key: "b".to_string(), value: ScriptValue::Str("no".to_string()) },
        TableEntry { key: "c".to_string(), value: ScriptValue::Integer(3) },
    ]);
    let (result, accessed) = read_record(&"Mixed".to_string(), &fields, table);
    let err = result.expect_err("the boolean converter rejects a string");
    assert_eq!(err.from, "string");
    assert_eq!(err.to, "boolean");
    assert_eq!(accessed, vec!["a".to_string(), "b".to_string()]);
}

#[test]
fn table_get_answers_first_match_and_absence() {
    let entries = vec![
        TableEntry { key: "k".to_string(), value: ScriptValue::Integer(1) },
        TableEntry { key: "k".to_string(), value: ScriptValue::Integer(2) },
    ];
    assert_eq!(table_get(&entries, &"k".to_string()), Some(&ScriptValue::Integer(1)));
    assert_eq!(table_get(&entries, &"missing".to_string()), None);
}

#[test]
fn primitive_converters_round_trip() {
    let written = conv_to(FieldVal::S("abc".to_string()));
    assert_eq!(written, ScriptValue::Str("abc".to_string()));
    assert_eq!(conv_from(&written, FieldKind::Str), Ok(FieldVal::S("abc".to_string())));
    let err = conv_from(&written, FieldKind::Boolean).expect_err("a string is not a boolean");
    assert_eq!(err.from, "string");
    assert_eq!(err.to, "boolean");
}
