//! The runtime behavior of the code the emitters produce, stated over the
//! script-value model: the generated reader's shape check, in-order field
//! retrieval and first-failure propagation, and the generated writer's
//! in-order field stores. The round-trip law for records of primitive
//! fields is proved at the end.

use vstd::prelude::*;
use crate::not_a_table_msg;
use crate::script::{ConvError, FieldKind, FieldVal, ScriptValue, TableEntry};
use crate::script::{conv_from, conv_to, conv_val, kind_matches, kind_name, lookup};
use crate::script::{lemma_lookup_at, spec_conv_to, spec_type_name, table_get, type_name_of, val_kind};

verus! {

/// One field of a record, as the generated code sees it: the field's name,
/// which keys the table, and the primitive kind its converter accepts.
#[derive(Debug)]
pub struct FieldSpec {
    pub name: String,
    pub kind: FieldKind,
}

/// Whether the table entry under a field's name converts to the field's kind.
pub open spec fn field_ok(entries: Seq<TableEntry>, f: FieldSpec) -> bool {
    kind_matches(lookup(entries, f.name@), f.kind)
}

/// The converted value of a field whose entry converts.
pub open spec fn field_val(entries: Seq<TableEntry>, f: FieldSpec) -> FieldVal {
    conv_val(lookup(entries, f.name@), f.kind)
}

/// The index of the first field whose conversion fails, or the field count
/// when every field converts.
pub open spec fn fail_idx(fields: Seq<FieldSpec>, entries: Seq<TableEntry>) -> int
    decreases fields.len(),
{
    if fields.len() == 0 {
        0
    } else if !field_ok(entries, fields[0]) {
        0
    } else {
        1 + fail_idx(fields.drop_first(), entries)
    }
}

/// Pins the first failing field down: if every field before `i` converts and
/// `i` is either the field count or a failing field, then `i` is where the
/// reader stops.
pub proof fn lemma_fail_idx_at(fields: Seq<FieldSpec>, entries: Seq<TableEntry>, i: int)
    requires
        0 <= i <= fields.len(),
        forall|j: int| 0 <= j < i ==> #[trigger] field_ok(entries, fields[j]),
        i < fields.len() ==> !field_ok(entries, fields[i]),
    ensures
        fail_idx(fields, entries) == i,
    decreases fields.len(),
{
    if i == 0 {
    } else {
        let t = fields.drop_first();
        assert(field_ok(entries, fields[0]));
        assert(forall|j: int| 0 <= j < i - 1 ==> #[trigger] field_ok(entries, t[j]));
        lemma_fail_idx_at(t, entries, i - 1);
    }
}

/// The behavior of a generated reader, which consumes a script value and
/// either constructs the record's field values or fails.
///
/// A non-table value is answered at once with a conversion error naming the
/// value's type-name, the record's identifier and the fixed message, and no
/// field is retrieved. A table is read field by field in declaration order:
/// each field's entry is retrieved under the field's name (an absent key
/// reads as nil) and handed to the field's converter, and the first
/// conversion failure is propagated unchanged, leaving the remaining fields
/// unretrieved. The second component lists the keys that were retrieved, in
/// the order they were retrieved.
pub fn read_record(to_ident: &String, fields: &Vec<FieldSpec>, value: ScriptValue) -> (r: (
    Result<Vec<FieldVal>, ConvError>,
    Vec<String>,
))
    ensures
        value !is Table ==> (r.0 matches Err(e) && e.from@ == spec_type_name(value)
            && e.to@ == to_ident@ && (e.message matches Some(m) && m@ == not_a_table_msg())
            && r.1@.len() == 0),
        value matches ScriptValue::Table(entries) ==> ({
            let k = fail_idx(fields@, entries@);
            &&& r.1@.len() == (if k < fields@.len() {
                k + 1
            } else {
                k
            })
            &&& forall|j: int| 0 <= j < r.1@.len() ==> #[trigger] r.1@[j]@ == fields@[j].name@
            &&& k == fields@.len() ==> (r.0 matches Ok(vals) && vals@.len() == fields@.len()
                && forall|j: int| 0 <= j < fields@.len() ==> #[trigger] vals@[j] == field_val(
                    entries@,
                    fields@[j],
                ))
            &&& k < fields@.len() ==> (r.0 matches Err(e) && e.from@ == spec_type_name(
                lookup(entries@, fields@[k as int].name@),
            ) && e.to@ == kind_name(fields@[k as int].kind) && e.message is None)
        }),
{
    let entries: Vec<TableEntry> = match value {
        ScriptValue::Table(es) => es,
        other => {
            let e = ConvError {
                from: type_name_of(&other).to_owned(),
                to: to_ident.clone(),
                message: Some("Lua value must be a table!".to_owned()),
            };
            return (Err(e), Vec::new());
        }
    };
    let n = fields.len();
    let mut vals: Vec<FieldVal> = Vec::new();
    let mut accessed: Vec<String> = Vec::new();
    let mut i: usize = 0;
    while i < n
        invariant
            value matches ScriptValue::Table(es) && es@ == entries@,
            i <= n,
            n == fields@.len(),
            forall|j: int| 0 <= j < i ==> #[trigger] field_ok(entries@, fields@[j]),
            vals@.len() == i,
            forall|j: int| 0 <= j < i ==> #[trigger] vals@[j] == field_val(entries@, fields@[j]),
            accessed@.len() == i,
            forall|j: int| 0 <= j < i ==> #[trigger] accessed@[j]@ == fields@[j].name@,
        decreases n - i,
    {
        let f = &fields[i];
        accessed.push(f.name.clone());
        let got = table_get(&entries, &f.name);
        let conv: Result<FieldVal, ConvError> = match got {
            Some(v) => conv_from(v, f.kind),
            None => {
                let nil_value = ScriptValue::Nil;
                conv_from(&nil_value, f.kind)
            }
        };
        match conv {
            Ok(fv) => {
                vals.push(fv);
            }
            Err(e) => {
                proof {
                    lemma_fail_idx_at(fields@, entries@, i as int);
                }
                return (Err(e), accessed);
            }
        }
        i = i + 1;
    }
    proof {
        lemma_fail_idx_at(fields@, entries@, n as int);
    }
    (Ok(vals), accessed)
}

/// The behavior of a generated writer, which consumes the record's field
/// values: a fresh table is populated in declaration order, each value moved
/// out exactly once, converted, and stored under its field's name; the
/// filled table is returned wrapped in the table-valued variant. The model
/// VM's table operations and the primitive converters are total, so no
/// error path exists here.
pub fn write_record(fields: &Vec<FieldSpec>, values: Vec<FieldVal>) -> (r: ScriptValue)
    requires
        values@.len() == fields@.len(),
    ensures
        (r matches ScriptValue::Table(entries) && entries@.len() == fields@.len() && forall|
            i: int,
        |
            0 <= i < fields@.len() ==> #[trigger] entries@[i].key == fields@[i].name
                && entries@[i].value == spec_conv_to(values@[i])),
{
    let ghost values0 = values@;
    let mut rest = values;
    let n = fields.len();
    let mut entries: Vec<TableEntry> = Vec::new();
    let mut i: usize = 0;
    while i < n
        invariant
            i <= n,
            n == fields@.len(),
            values0.len() == n,
            rest@ =~= values0.skip(i as int),
            entries@.len() == i,
            forall|j: int| 0 <= j < i ==> #[trigger] entries@[j].key == fields@[j].name
                && entries@[j].value == spec_conv_to(values0[j]),
        decreases n - i,
    {
        let v = rest.remove(0);
        proof {
            assert(v == values0[i as int]);
            assert(rest@ =~= values0.skip(i + 1));
        }
        let entry = TableEntry { key: fields[i].name.clone(), value: conv_to(v) };
        entries.push(entry);
        i = i + 1;
    }
    ScriptValue::Table(entries)
}

/// Round-trip law: for a record of primitive fields with pairwise distinct
/// field names, reading back the table the writer produced succeeds and
/// yields exactly the field values that were written. The table is
/// quantified by the writer's contract, the read result by the reader's.
pub proof fn lemma_round_trip(fields: Seq<FieldSpec>, values: Seq<FieldVal>, entries: Seq<
    TableEntry,
>)
    requires
        values.len() == fields.len(),
        entries.len() == fields.len(),
        forall|i: int, j: int|
            0 <= i < fields.len() && 0 <= j < fields.len() && i != j ==> fields[i].name@
                != fields[j].name@,
        forall|i: int| 0 <= i < fields.len() ==> #[trigger] val_kind(values[i]) == fields[i].kind,
        forall|i: int| 0 <= i < fields.len() ==> (#[trigger] entries[i].key)@ == fields[i].name@,
        forall|i: int| 0 <= i < fields.len() ==> #[trigger] entries[i].value == spec_conv_to(
            values[i],
        ),
    ensures
        fail_idx(fields, entries) == fields.len(),
        forall|i: int| 0 <= i < fields.len() ==> #[trigger] field_val(entries, fields[i])
            == values[i],
{
    assert forall|i: int| 0 <= i < fields.len() implies #[trigger] field_ok(entries, fields[i])
        && field_val(entries, fields[i]) == values[i] by {
        assert(entries[i].key@ == fields[i].name@);
        assert(entries[i].value == spec_conv_to(values[i]));
        assert forall|j: int| 0 <= j < i implies #[trigger] entries[j].key@ != fields[i].name@ by {
            assert(entries[j].key@ == fields[j].name@);
            assert(fields[j].name@ != fields[i].name@);
        };
        lemma_lookup_at(entries, fields[i].name@, i);
        assert(lookup(entries, fields[i].name@) == spec_conv_to(values[i]));
        assert(kind_matches(spec_conv_to(values[i]), val_kind(values[i])));
        assert(conv_val(spec_conv_to(values[i]), val_kind(values[i])) == values[i]);
    };
    assert forall|i: int| 0 <= i < fields.len() implies #[trigger] field_val(entries, fields[i])
        == values[i] by {
        assert(field_ok(entries, fields[i]));
    };
    lemma_fail_idx_at(fields, entries, fields.len() as int);
}

} // verus!
