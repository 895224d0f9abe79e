//! The schema-tolerant record decoder: reads the members of a JSON object
//! into the fields of a record shape under one of three compatibility modes,
//! and writes a record back out.

use vstd::prelude::*;

use crate::json::{Json, Member};
use crate::timestamp::{
    instant_of, is_null_timestamp, parse_timestamp, timestamp_spec, Timestamp, NULL_TIMESTAMP,
};

verus! {

/// How the decoder treats what a record shape does not know.
#[derive(Clone, Copy, Debug, PartialEq, Eq, Structural)]
pub enum Mode {
    /// Unknown fields and unknown enumeration tags are errors.
    Strict,
    /// Unknown fields are kept in the record's residual members; unknown
    /// enumeration tags read as `FieldValue::UnknownTag`.
    Lenient,
    /// Unknown fields are dropped; unknown enumeration tags are errors.
    Ignore,
}

/// The type of one field of a record shape.
#[derive(Debug)]
pub enum FieldKind {
    /// A JSON integer.
    Integer,
    /// A JSON string.
    Text,
    /// A JSON boolean.
    Flag,
    /// A JSON string, where the empty string means the field is absent.
    NullableText,
    /// A date-time string.
    Timestamp,
    /// A date-time string, where `NULL_TIMESTAMP` means the field is absent.
    NullableTimestamp,
    /// An integer tag of an enumeration whose known tags are listed.
    Tag(Vec<i64>),
    /// Any JSON value, kept as it is.
    Any,
}

/// One field of a record shape: its name on the wire, its type, and whether
/// it may be missing or `null`.
#[derive(Debug)]
pub struct FieldSpec {
    pub name: String,
    pub kind: FieldKind,
    pub optional: bool,
}

/// The fields that a record is expected to have.
#[derive(Debug)]
pub struct RecordShape {
    pub fields: Vec<FieldSpec>,
}

/// The value decoded for one field.
#[derive(Debug)]
pub enum FieldValue {
    Absent,
    Integer(i64),
    Text(String),
    Flag(bool),
    Time(Timestamp),
    Tag(i64),
    UnknownTag,
    Any(Json),
}

/// Why a value could not be decoded.
#[derive(Debug)]
pub enum DecodeCause {
    UnknownField,
    MissingField,
    DuplicateField,
    InvalidType,
    UnknownVariant(i64),
    InvalidTimestamp,
    /// The bytes are not a JSON document; the parser's message.
    Syntax(String),
}

/// A decoding failure at one field of a record.
#[derive(Debug)]
pub struct FieldError {
    pub field: String,
    pub cause: DecodeCause,
}

/// A decoded record: one value for each field of its shape, in the shape's
/// order, and the members that the shape did not know (kept in lenient mode).
#[derive(Debug)]
pub struct Record {
    pub values: Vec<FieldValue>,
    pub residual: Vec<Member>,
}

impl RecordShape {
    /// No two fields share a name.
    pub open spec fn wf(&self) -> bool {
        forall|i: int, j: int|
            0 <= i < j < self.fields@.len() ==> #[trigger] self.fields@[i].name@
                != #[trigger] self.fields@[j].name@
    }
}

/// What a JSON value decodes to for a field.
pub open spec fn value_spec(field: FieldSpec, mode: Mode, v: Json) -> Result<FieldValue, DecodeCause> {
    if field.optional && v is Null {
        Ok(FieldValue::Absent)
    } else {
        match field.kind {
            FieldKind::Integer => match v {
                Json::Int(i) => Ok(FieldValue::Integer(i)),
                _ => Err(DecodeCause::InvalidType),
            },
            FieldKind::Text => match v {
                Json::Str(s) => Ok(FieldValue::Text(s)),
                _ => Err(DecodeCause::InvalidType),
            },
            FieldKind::Flag => match v {
                Json::Bool(b) => Ok(FieldValue::Flag(b)),
                _ => Err(DecodeCause::InvalidType),
            },
            FieldKind::NullableText => match v {
                Json::Str(s) => if s@.len() == 0 {
                    Ok(FieldValue::Absent)
                } else {
                    Ok(FieldValue::Text(s))
                },
                _ => Err(DecodeCause::InvalidType),
            },
            FieldKind::Timestamp => match v {
                Json::Str(s) => time_spec(s),
                _ => Err(DecodeCause::InvalidType),
            },
            FieldKind::NullableTimestamp => match v {
                Json::Str(s) => if s@ == NULL_TIMESTAMP@ {
                    Ok(FieldValue::Absent)
                } else {
                    time_spec(s)
                },
                _ => Err(DecodeCause::InvalidType),
            },
            FieldKind::Tag(known) => match v {
                Json::Int(i) => if known@.contains(i) {
                    Ok(FieldValue::Tag(i))
                } else if mode == Mode::Lenient {
                    Ok(FieldValue::UnknownTag)
                } else {
                    Err(DecodeCause::UnknownVariant(i))
                },
                _ => Err(DecodeCause::InvalidType),
            },
            FieldKind::Any => Ok(FieldValue::Any(v)),
        }
    }
}

/// What a date-time text decodes to.
pub open spec fn time_spec(s: String) -> Result<FieldValue, DecodeCause> {
    match timestamp_spec(s, instant_of(s@)) {
        Some(t) => Ok(FieldValue::Time(t)),
        None => Err(DecodeCause::InvalidTimestamp),
    }
}

fn decode_time(s: String) -> (r: Result<FieldValue, DecodeCause>)
    ensures
        r == time_spec(s),
{
    match parse_timestamp(s) {
        Some(t) => Ok(FieldValue::Time(t)),
        None => Err(DecodeCause::InvalidTimestamp),
    }
}

fn tag_known(known: &Vec<i64>, i: i64) -> (r: bool)
    ensures
        r == known@.contains(i),
{
    let mut j: usize = 0;
    while j < known.len()
        invariant
            j <= known@.len(),
            forall|k: int| 0 <= k < j ==> known@[k] != i,
        decreases known@.len() - j,
    {
        if known[j] == i {
            return true;
        }
        j = j + 1;
    }
    false
}

/// Decodes the JSON value of one field.
pub fn decode_value(field: &FieldSpec, mode: Mode, v: Json) -> (r: Result<FieldValue, DecodeCause>)
    ensures
        r == value_spec(*field, mode, v),
{
    if field.optional && v.is_null() {
        return Ok(FieldValue::Absent);
    }
    match &field.kind {
        FieldKind::Integer => match v {
            Json::Int(i) => Ok(FieldValue::Integer(i)),
            _ => Err(DecodeCause::InvalidType),
        },
        FieldKind::Text => match v {
            Json::Str(s) => Ok(FieldValue::Text(s)),
            _ => Err(DecodeCause::InvalidType),
        },
        FieldKind::Flag => match v {
            Json::Bool(b) => Ok(FieldValue::Flag(b)),
            _ => Err(DecodeCause::InvalidType),
        },
        FieldKind::NullableText => match v {
            Json::Str(s) => if s.as_str().is_empty() {
                Ok(FieldValue::Absent)
            } else {
                Ok(FieldValue::Text(s))
            },
            _ => Err(DecodeCause::InvalidType),
        },
        FieldKind::Timestamp => match v {
            Json::Str(s) => decode_time(s),
            _ => Err(DecodeCause::InvalidType),
        },
        FieldKind::NullableTimestamp => match v {
            Json::Str(s) => if is_null_timestamp(&s) {
                Ok(FieldValue::Absent)
            } else {
                decode_time(s)
            },
            _ => Err(DecodeCause::InvalidType),
        },
        FieldKind::Tag(known) => match v {
            Json::Int(i) => if tag_known(known, i) {
                Ok(FieldValue::Tag(i))
            } else if mode == Mode::Lenient {
                Ok(FieldValue::UnknownTag)
            } else {
                Err(DecodeCause::UnknownVariant(i))
            },
            _ => Err(DecodeCause::InvalidType),
        },
        FieldKind::Any => Ok(FieldValue::Any(v)),
    }
}

/// The decoder's progress through an object: the value found so far for
/// each field, and the unknown members kept so far.
pub type Progress = (Seq<Option<FieldValue>>, Seq<Member>);

/// The first field at or after `j` that is named `name`.
pub open spec fn position_from(fields: Seq<FieldSpec>, name: Seq<char>, j: int) -> Option<int>
    decreases fields.len() - j,
{
    if j < 0 || j >= fields.len() {
        None
    } else if fields[j].name@ == name {
        Some(j)
    } else {
        position_from(fields, name, j + 1)
    }
}

/// The first field named `name`.
pub open spec fn field_position(fields: Seq<FieldSpec>, name: Seq<char>) -> Option<int> {
    position_from(fields, name, 0)
}

/// The progress before any member is read: no field found, nothing kept.
pub open spec fn empty_progress(fields: Seq<FieldSpec>) -> Progress {
    (Seq::new(fields.len(), |i: int| None), Seq::empty())
}

/// Reads one member into the progress made so far.
pub open spec fn scan_member(fields: Seq<FieldSpec>, mode: Mode, st: Progress, m: Member) -> Result<
    Progress,
    FieldError,
> {
    match field_position(fields, m.0@) {
        None => match mode {
            Mode::Strict => Err(FieldError { field: m.0, cause: DecodeCause::UnknownField }),
            Mode::Lenient => Ok((st.0, st.1.push(m))),
            Mode::Ignore => Ok(st),
        },
        Some(i) => if st.0[i] is Some {
            Err(FieldError { field: m.0, cause: DecodeCause::DuplicateField })
        } else {
            match value_spec(fields[i], mode, m.1) {
                Ok(v) => Ok((st.0.update(i, Some(v)), st.1)),
                Err(c) => Err(FieldError { field: m.0, cause: c }),
            }
        },
    }
}

/// Reads the members in document order, stopping at the first failure.
pub open spec fn scan(fields: Seq<FieldSpec>, mode: Mode, members: Seq<Member>) -> Result<
    Progress,
    FieldError,
>
    decreases members.len(),
{
    if members.len() == 0 {
        Ok(empty_progress(fields))
    } else {
        match scan(fields, mode, members.drop_last()) {
            Ok(st) => scan_member(fields, mode, st, members.last()),
            Err(e) => Err(e),
        }
    }
}

/// The first field at or after `j` that is required and was not found.
pub open spec fn missing_from(fields: Seq<FieldSpec>, slots: Seq<Option<FieldValue>>, j: int) -> Option<
    int,
>
    decreases fields.len() - j,
{
    if j < 0 || j >= fields.len() {
        None
    } else if slots[j] is None && !fields[j].optional {
        Some(j)
    } else {
        missing_from(fields, slots, j + 1)
    }
}

/// The value of a field that was found, else `Absent`.
pub open spec fn settle(slot: Option<FieldValue>) -> FieldValue {
    match slot {
        Some(v) => v,
        None => FieldValue::Absent,
    }
}

/// What an object's members decode to: the values in field order and the
/// kept unknown members, or the first failure. Member failures come first,
/// in document order; then the first required field that is missing.
pub open spec fn decode_spec(fields: Seq<FieldSpec>, mode: Mode, members: Seq<Member>) -> Result<
    (Seq<FieldValue>, Seq<Member>),
    FieldError,
> {
    match scan(fields, mode, members) {
        Err(e) => Err(e),
        Ok(st) => match missing_from(fields, st.0, 0) {
            Some(i) => Err(FieldError { field: fields[i].name, cause: DecodeCause::MissingField }),
            None => Ok((st.0.map_values(|s: Option<FieldValue>| settle(s)), st.1)),
        },
    }
}

/// Once reading a prefix of the members has failed, reading all of them
/// fails in the same way.
pub proof fn lemma_scan_failure_stays(fields: Seq<FieldSpec>, mode: Mode, members: Seq<Member>, k: int)
    requires
        0 <= k <= members.len(),
        scan(fields, mode, members.take(k)) is Err,
    ensures
        scan(fields, mode, members) == scan(fields, mode, members.take(k)),
    decreases members.len() - k,
{
    if k < members.len() {
        assert(members.take(k + 1).drop_last() =~= members.take(k));
        lemma_scan_failure_stays(fields, mode, members, k + 1);
    } else {
        assert(members.take(k) =~= members);
    }
}

proof fn lemma_position_in_range(fields: Seq<FieldSpec>, name: Seq<char>, j: int)
    ensures
        match position_from(fields, name, j) {
            Some(i) => j <= i < fields.len() && fields[i].name@ == name,
            None => true,
        },
    decreases fields.len() - j,
{
    if 0 <= j < fields.len() && fields[j].name@ != name {
        lemma_position_in_range(fields, name, j + 1);
    }
}

fn find_field(fields: &Vec<FieldSpec>, name: &String) -> (r: Option<usize>)
    ensures
        match r {
            Some(i) => field_position(fields@, name@) == Some(i as int) && i < fields@.len(),
            None => field_position(fields@, name@) is None,
        },
{
    let mut j: usize = 0;
    while j < fields.len()
        invariant
            j <= fields@.len(),
            field_position(fields@, name@) == position_from(fields@, name@, j as int),
        decreases fields@.len() - j,
    {
        if fields[j].name == *name {
            proof {
                lemma_position_in_range(fields@, name@, j as int);
            }
            return Some(j);
        }
        j = j + 1;
    }
    None
}

/// Decodes the members of a JSON object as a record of the given shape.
pub fn decode_record(shape: &RecordShape, mode: Mode, members: Vec<Member>) -> (r: Result<
    Record,
    FieldError,
>)
    ensures
        match (r, decode_spec(shape.fields@, mode, members@)) {
            (Ok(rec), Ok(m)) => rec.values@ == m.0 && rec.residual@ == m.1,
            (Err(e), Err(f)) => e == f,
            _ => false,
        },
        r matches Ok(rec) ==> rec.values@.len() == shape.fields@.len(),
{
    let ghost fields = shape.fields@;
    let ghost all = members@;
    let n = shape.fields.len();
    let mut slots: Vec<Option<FieldValue>> = Vec::new();
    let mut i: usize = 0;
    while i < n
        invariant
            n == fields.len(),
            i <= n,
            slots@ =~= Seq::new(i as nat, |k: int| None::<FieldValue>),
        decreases n - i,
    {
        slots.push(None);
        i = i + 1;
    }
    let mut residual: Vec<Member> = Vec::new();
    let mut rest = members;
    let total = rest.len();
    let mut k: usize = 0;
    assert(all.take(0) =~= Seq::<Member>::empty());
    assert(slots@ =~= empty_progress(fields).0);
    while rest.len() > 0
        invariant
            fields == shape.fields@,
            k <= all.len(),
            rest@ == all.skip(k as int),
            all == members@,
            all.len() == total,
            scan(fields, mode, all.take(k as int)) == Ok::<Progress, FieldError>((slots@, residual@)),
            slots@.len() == fields.len(),
        decreases rest@.len(),
    {
        let m = rest.remove(0);
        let ghost st: Progress = (slots@, residual@);
        assert(all.take(k + 1).drop_last() =~= all.take(k as int));
        assert(all.take(k + 1).last() == m);
        proof {
            assert(all.skip(k as int)[0] == all[k as int]);
            assert(all.skip(k + 1) =~= all.skip(k as int).remove(0));
        }
        assert(scan(fields, mode, all.take(k + 1)) == scan_member(fields, mode, st, m));
        match find_field(&shape.fields, &m.0) {
            None => {
                match mode {
                    Mode::Strict => {
                        proof {
                            lemma_scan_failure_stays(fields, mode, all, k + 1);
                        }
                        let e = FieldError { field: m.0, cause: DecodeCause::UnknownField };
                        assert(decode_spec(fields, mode, all) == Err::<(Seq<FieldValue>, Seq<Member>), FieldError>(e));
                        return Err(e);
                    },
                    Mode::Lenient => {
                        residual.push(m);
                    },
                    Mode::Ignore => {},
                }
            },
            Some(f) => {
                let taken = match &slots[f] {
                    Some(_) => true,
                    None => false,
                };
                if taken {
                    proof {
                        lemma_scan_failure_stays(fields, mode, all, k + 1);
                    }
                    let e = FieldError { field: m.0, cause: DecodeCause::DuplicateField };
                    assert(decode_spec(fields, mode, all) == Err::<(Seq<FieldValue>, Seq<Member>), FieldError>(e));
                    return Err(e);
                }
                let (name, value) = m;
                match decode_value(&shape.fields[f], mode, value) {
                    Ok(v) => {
                        slots.set(f, Some(v));
                    },
                    Err(c) => {
                        proof {
                            lemma_scan_failure_stays(fields, mode, all, k + 1);
                        }
                        let e = FieldError { field: name, cause: c };
                        assert(decode_spec(fields, mode, all) == Err::<(Seq<FieldValue>, Seq<Member>), FieldError>(e));
                        return Err(e);
                    },
                }
            },
        }
        k = k + 1;
    }
    assert(all.take(k as int) =~= all);
    let ghost done = slots@;
    let mut values: Vec<FieldValue> = Vec::new();
    let mut j: usize = 0;
    while j < n
        invariant
            n == fields.len(),
            fields == shape.fields@,
            j <= n,
            done.len() == n,
            slots@.len() == n - j,
            forall|q: int| 0 <= q < slots@.len() ==> slots@[q] == done[q + j],
            values@ =~= done.take(j as int).map_values(|s: Option<FieldValue>| settle(s)),
            missing_from(fields, done, 0) == missing_from(fields, done, j as int),
            scan(fields, mode, all) == Ok::<Progress, FieldError>((done, residual@)),
            all == members@,
        decreases n - j,
    {
        let slot = slots.remove(0);
        let v = match slot {
            Some(v) => v,
            None => {
                if shape.fields[j].optional {
                    FieldValue::Absent
                } else {
                    assert(missing_from(fields, done, j as int) == Some(j as int));
                    let e = FieldError { field: shape.fields[j].name.clone(), cause: DecodeCause::MissingField };
                    assert(decode_spec(fields, mode, all) == Err::<(Seq<FieldValue>, Seq<Member>), FieldError>(e));
                    return Err(e);
                }
            },
        };
        values.push(v);
        j = j + 1;
        assert(values@ =~= done.take(j as int).map_values(|s: Option<FieldValue>| settle(s)));
    }
    assert(done.take(n as int) =~= done);
    Ok(Record { values, residual })
}

/// The JSON value that a decoded field value is written as.
pub open spec fn encode_value_spec(v: FieldValue) -> Json {
    match v {
        FieldValue::Absent => Json::Null,
        FieldValue::Integer(i) => Json::Int(i),
        FieldValue::Text(s) => Json::Str(s),
        FieldValue::Flag(b) => Json::Bool(b),
        FieldValue::Time(t) => Json::Str(t.text),
        FieldValue::Tag(i) => Json::Int(i),
        FieldValue::UnknownTag => Json::Null,
        FieldValue::Any(j) => j,
    }
}

/// The members written for the first `n` fields: one for each field whose
/// value is not `Absent`, keyed by the field's name, in field order.
pub open spec fn encode_prefix(fields: Seq<FieldSpec>, values: Seq<FieldValue>, n: int) -> Seq<Member>
    decreases n,
{
    if n <= 0 {
        Seq::empty()
    } else if values[n - 1] is Absent {
        encode_prefix(fields, values, n - 1)
    } else {
        encode_prefix(fields, values, n - 1).push((fields[n - 1].name, encode_value_spec(values[n - 1])))
    }
}

/// The members that a record is written as: its present fields in field
/// order, then its residual members.
pub open spec fn encode_spec(fields: Seq<FieldSpec>, values: Seq<FieldValue>, residual: Seq<Member>) -> Seq<Member> {
    encode_prefix(fields, values, fields.len() as int) + residual
}

/// Writes one decoded field value as JSON.
pub fn encode_value(v: FieldValue) -> (r: Json)
    ensures
        r == encode_value_spec(v),
{
    match v {
        FieldValue::Absent => Json::Null,
        FieldValue::Integer(i) => Json::Int(i),
        FieldValue::Text(s) => Json::Str(s),
        FieldValue::Flag(b) => Json::Bool(b),
        FieldValue::Time(t) => Json::Str(t.text),
        FieldValue::Tag(i) => Json::Int(i),
        FieldValue::UnknownTag => Json::Null,
        FieldValue::Any(j) => j,
    }
}

/// Writes a record of the given shape back as the members of a JSON object.
pub fn encode_record(shape: &RecordShape, record: Record) -> (r: Vec<Member>)
    requires
        record.values@.len() == shape.fields@.len(),
    ensures
        r@ == encode_spec(shape.fields@, record.values@, record.residual@),
{
    let ghost fields = shape.fields@;
    let ghost values = record.values@;
    let Record { values: mut rest, residual } = record;
    let n = shape.fields.len();
    let mut out: Vec<Member> = Vec::new();
    let mut i: usize = 0;
    while i < n
        invariant
            n == fields.len(),
            fields == shape.fields@,
            values.len() == n,
            i <= n,
            rest@ == values.skip(i as int),
            out@ == encode_prefix(fields, values, i as int),
        decreases n - i,
    {
        let v = rest.remove(0);
        proof {
            assert(values.skip(i as int)[0] == values[i as int]);
            assert(values.skip(i + 1) =~= values.skip(i as int).remove(0));
        }
        match v {
            FieldValue::Absent => {},
            _ => {
                let name = shape.fields[i].name.clone();
                out.push((name, encode_value(v)));
            },
        }
        i = i + 1;
    }
    let mut residual = residual;
    let ghost kept = residual@;
    let ghost before = out@;
    out.append(&mut residual);
    assert(out@ =~= before + kept);
    out
}

} // verus!
