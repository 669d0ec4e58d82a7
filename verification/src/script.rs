//! A model of the script VM's values, as the generated implementations see
//! them: the value variants the bridge distinguishes, tables as ordered
//! key/value sequences, the conversion error, and the primitive per-type
//! converters the generated code delegates to.

use vstd::prelude::*;

verus! {

/// One entry of a table, keyed by a field name.
#[derive(Debug, PartialEq, Eq)]
pub struct TableEntry {
    pub key: String,
    pub value: ScriptValue,
}

/// A script-side value. Tables keep their entries in the order the entries
/// were set, which is how the order of the writer's field stores stays
/// observable.
#[derive(Debug, PartialEq, Eq)]
pub enum ScriptValue {
    Nil,
    Boolean(bool),
    Integer(i64),
    Str(String),
    Table(Vec<TableEntry>),
}

/// The kinds of primitive record fields the model converters cover.
#[derive(Debug, PartialEq, Eq, Clone, Copy)]
pub enum FieldKind {
    Boolean,
    Integer,
    Str,
}

/// A primitive field value of a record.
#[derive(Debug, PartialEq, Eq)]
pub enum FieldVal {
    B(bool),
    I(i64),
    S(String),
}

/// The conversion error of the script VM: which type-name a value had, which
/// type it was supposed to become, and an optional message.
#[derive(Debug, PartialEq, Eq)]
pub struct ConvError {
    pub from: String,
    pub to: String,
    pub message: Option<String>,
}

/// The type-name the VM's inspector reports for a value.
pub open spec fn spec_type_name(v: ScriptValue) -> Seq<char> {
    match v {
        ScriptValue::Nil => "nil"@,
        ScriptValue::Boolean(_) => "boolean"@,
        ScriptValue::Integer(_) => "integer"@,
        ScriptValue::Str(_) => "string"@,
        ScriptValue::Table(_) => "table"@,
    }
}

/// The VM's value inspector.
pub fn type_name_of(v: &ScriptValue) -> (r: &'static str)
    ensures
        r@ == spec_type_name(*v),
{
    match v {
        ScriptValue::Nil => "nil",
        ScriptValue::Boolean(_) => "boolean",
        ScriptValue::Integer(_) => "integer",
        ScriptValue::Str(_) => "string",
        ScriptValue::Table(_) => "table",
    }
}

/// The name of the native type a field kind converts to, as it appears in a
/// delegated converter's error.
pub open spec fn kind_name(k: FieldKind) -> Seq<char> {
    match k {
        FieldKind::Boolean => "boolean"@,
        FieldKind::Integer => "integer"@,
        FieldKind::Str => "string"@,
    }
}

/// Whether a script value is of the variant a field kind accepts.
pub open spec fn kind_matches(v: ScriptValue, k: FieldKind) -> bool {
    match k {
        FieldKind::Boolean => v is Boolean,
        FieldKind::Integer => v is Integer,
        FieldKind::Str => v is Str,
    }
}

/// The field value a matching script value converts to.
pub open spec fn conv_val(v: ScriptValue, k: FieldKind) -> FieldVal {
    match k {
        FieldKind::Boolean => FieldVal::B(v->Boolean_0),
        FieldKind::Integer => FieldVal::I(v->Integer_0),
        FieldKind::Str => FieldVal::S(v->Str_0),
    }
}

/// The script value a field value serializes to.
pub open spec fn spec_conv_to(v: FieldVal) -> ScriptValue {
    match v {
        FieldVal::B(b) => ScriptValue::Boolean(b),
        FieldVal::I(i) => ScriptValue::Integer(i),
        FieldVal::S(s) => ScriptValue::Str(s),
    }
}

/// The kind a field value belongs to.
pub open spec fn val_kind(v: FieldVal) -> FieldKind {
    match v {
        FieldVal::B(_) => FieldKind::Boolean,
        FieldVal::I(_) => FieldKind::Integer,
        FieldVal::S(_) => FieldKind::Str,
    }
}

/// The delegated from-script-value converter for a primitive field kind: it
/// accepts exactly the matching variant, and reports every other value with
/// the value's type-name and the kind's native type name.
pub fn conv_from(v: &ScriptValue, k: FieldKind) -> (r: Result<FieldVal, ConvError>)
    ensures
        kind_matches(*v, k) ==> (r matches Ok(fv) && fv == conv_val(*v, k)),
        !kind_matches(*v, k) ==> (r matches Err(e) && e.from@ == spec_type_name(*v)
            && e.to@ == kind_name(k) && e.message is None),
{
    match k {
        FieldKind::Boolean => match v {
            ScriptValue::Boolean(b) => Ok(FieldVal::B(*b)),
            _ => Err(mk_conv_err(v, k)),
        },
        FieldKind::Integer => match v {
            ScriptValue::Integer(i) => Ok(FieldVal::I(*i)),
            _ => Err(mk_conv_err(v, k)),
        },
        FieldKind::Str => match v {
            ScriptValue::Str(s) => Ok(FieldVal::S(s.clone())),
            _ => Err(mk_conv_err(v, k)),
        },
    }
}

/// The error a delegated converter raises for a value of the wrong variant.
fn mk_conv_err(v: &ScriptValue, k: FieldKind) -> (r: ConvError)
    ensures
        r.from@ == spec_type_name(*v),
        r.to@ == kind_name(k),
        r.message is None,
{
    let to: &'static str = match k {
        FieldKind::Boolean => "boolean",
        FieldKind::Integer => "integer",
        FieldKind::Str => "string",
    };
    ConvError { from: type_name_of(v).to_owned(), to: to.to_owned(), message: None }
}

/// The delegated to-script-value converter for a primitive field value; it
/// consumes the value and never fails.
pub fn conv_to(v: FieldVal) -> (r: ScriptValue)
    ensures
        r == spec_conv_to(v),
{
    match v {
        FieldVal::B(b) => ScriptValue::Boolean(b),
        FieldVal::I(i) => ScriptValue::Integer(i),
        FieldVal::S(s) => ScriptValue::Str(s),
    }
}

/// What a table-get answers: the value under the first entry with the key,
/// or nil when no entry carries it.
pub open spec fn lookup(entries: Seq<TableEntry>, key: Seq<char>) -> ScriptValue
    decreases entries.len(),
{
    if entries.len() == 0 {
        ScriptValue::Nil
    } else if entries[0].key@ == key {
        entries[0].value
    } else {
        lookup(entries.drop_first(), key)
    }
}

/// Locates the first entry with a key, or the absence of one.
pub proof fn lemma_lookup_at(entries: Seq<TableEntry>, key: Seq<char>, i: int)
    requires
        0 <= i <= entries.len(),
        forall|j: int| 0 <= j < i ==> #[trigger] entries[j].key@ != key,
        i < entries.len() ==> entries[i].key@ == key,
    ensures
        lookup(entries, key) == if i < entries.len() {
            entries[i].value
        } else {
            ScriptValue::Nil
        },
    decreases entries.len(),
{
    if i == 0 {
    } else {
        let t = entries.drop_first();
        assert(forall|j: int| 0 <= j < i - 1 ==> #[trigger] t[j].key@ != key);
        lemma_lookup_at(t, key, i - 1);
    }
}

/// The VM's table-get operation: hands out the first entry under the key,
/// and nothing for an absent key, which the caller reads as nil.
pub fn table_get<'a>(entries: &'a Vec<TableEntry>, key: &String) -> (r: Option<&'a ScriptValue>)
    ensures
        (match r {
            Some(v) => *v,
            None => ScriptValue::Nil,
        }) == lookup(entries@, key@),
        r is None ==> forall|j: int| 0 <= j < entries@.len() ==> #[trigger] entries@[j].key@
            != key@,
{
    let n = entries.len();
    let mut i: usize = 0;
    while i < n
        invariant
            i <= n,
            n == entries@.len(),
            forall|j: int| 0 <= j < i ==> #[trigger] entries@[j].key@ != key@,
        decreases n - i,
    {
        let e = &entries[i];
        if e.key == *key {
            proof {
                lemma_lookup_at(entries@, key@, i as int);
            }
            return Some(&e.value);
        }
        i = i + 1;
    }
    proof {
        lemma_lookup_at(entries@, key@, n as int);
    }
    None
}

} // verus!
