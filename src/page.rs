//! The page fetcher's decoding side: the two response envelopes of the
//! service, `{ "data": ... }` and `{ "data": [...], "pagination": {...} }`,
//! decoded under a compatibility mode, with the path to any failure.

use vstd::prelude::*;

use crate::decode::{
    decode_record, decode_spec, DecodeCause, FieldKind, FieldSpec, FieldValue, Mode, Record,
    RecordShape,
};
use crate::error::{DecodeError, Error, PathSegment, PathStep};
use crate::json::{Json, Member};
use crate::pagination::{Page, Pagination};

verus! {

/// A decoded record as contracts see it: its values and residual members.
pub type RecordModel = (Seq<FieldValue>, Seq<Member>);

/// A failure as contracts see it: the path to it and its cause.
pub type Failure = (Seq<PathStep>, DecodeCause);

/// The model of a decoded record.
pub open spec fn record_model(r: Record) -> RecordModel {
    (r.values@, r.residual@)
}

/// A required field of the given name and kind.
pub open spec fn required_field(f: FieldSpec, name: Seq<char>, kind: FieldKind) -> bool {
    f.name@ == name && f.kind == kind && !f.optional
}

/// The shape of a page descriptor: four required integers.
pub open spec fn is_pagination_shape(fields: Seq<FieldSpec>) -> bool {
    &&& fields.len() == 4
    &&& required_field(fields[0], "index"@, FieldKind::Integer)
    &&& required_field(fields[1], "pageSize"@, FieldKind::Integer)
    &&& required_field(fields[2], "resultCount"@, FieldKind::Integer)
    &&& required_field(fields[3], "totalCount"@, FieldKind::Integer)
}

/// The shape of the paginated envelope: `data` and `pagination`, of any type.
pub open spec fn is_page_envelope(fields: Seq<FieldSpec>) -> bool {
    &&& fields.len() == 2
    &&& required_field(fields[0], "data"@, FieldKind::Any)
    &&& required_field(fields[1], "pagination"@, FieldKind::Any)
}

/// The shape of the single-value envelope: `data`, of any type.
pub open spec fn is_data_envelope(fields: Seq<FieldSpec>) -> bool {
    &&& fields.len() == 1
    &&& required_field(fields[0], "data"@, FieldKind::Any)
}

/// An integer that fits an `i32`.
pub open spec fn small_int(v: FieldValue) -> Option<i32> {
    match v {
        FieldValue::Integer(i) => if i32::MIN <= i <= i32::MAX {
            Some(i as i32)
        } else {
            None
        },
        _ => None,
    }
}

/// An integer.
pub open spec fn large_int(v: FieldValue) -> Option<i64> {
    match v {
        FieldValue::Integer(i) => Some(i),
        _ => None,
    }
}

/// What the members of a page descriptor decode to: decoding is always
/// strict, and the first three counts must fit an `i32`.
pub open spec fn pagination_spec(pag: Seq<FieldSpec>, members: Seq<Member>) -> Result<Pagination, Failure> {
    match decode_spec(pag, Mode::Strict, members) {
        Err(e) => Err((seq![PathStep::Field(e.field@)], e.cause)),
        Ok(d) => if small_int(d.0[0]) is None {
            Err((seq![PathStep::Field("index"@)], DecodeCause::InvalidType))
        } else if small_int(d.0[1]) is None {
            Err((seq![PathStep::Field("pageSize"@)], DecodeCause::InvalidType))
        } else if small_int(d.0[2]) is None {
            Err((seq![PathStep::Field("resultCount"@)], DecodeCause::InvalidType))
        } else if large_int(d.0[3]) is None {
            Err((seq![PathStep::Field("totalCount"@)], DecodeCause::InvalidType))
        } else {
            Ok(
                Pagination {
                    index: small_int(d.0[0])->Some_0,
                    page_size: small_int(d.0[1])->Some_0,
                    result_count: small_int(d.0[2])->Some_0,
                    total_count: large_int(d.0[3])->Some_0,
                },
            )
        },
    }
}

/// What one element of a `data` array decodes to; a failure carries its
/// path below the element.
pub open spec fn item_spec(fields: Seq<FieldSpec>, mode: Mode, item: Json) -> Result<RecordModel, Failure> {
    match item {
        Json::Object(ms) => match decode_spec(fields, mode, ms@) {
            Ok(d) => Ok(d),
            Err(e) => Err((seq![PathStep::Field(e.field@)], e.cause)),
        },
        _ => Err((Seq::empty(), DecodeCause::InvalidType)),
    }
}

/// What the elements of a `data` array decode to, in order; a failure at
/// the first element that fails carries its path from the array.
pub open spec fn items_spec(fields: Seq<FieldSpec>, mode: Mode, items: Seq<Json>) -> Result<Seq<RecordModel>, Failure>
    decreases items.len(),
{
    if items.len() == 0 {
        Ok(Seq::empty())
    } else {
        match items_spec(fields, mode, items.drop_last()) {
            Err(e) => Err(e),
            Ok(rs) => match item_spec(fields, mode, items.last()) {
                Ok(r) => Ok(rs.push(r)),
                Err(f) => Err((seq![PathStep::Index(items.len() - 1)] + f.0, f.1)),
            },
        }
    }
}

/// Decodes responses of the service under one compatibility mode, into
/// records of one shape.
#[derive(Debug)]
pub struct PageDecoder {
    pub page_envelope: RecordShape,
    pub data_envelope: RecordShape,
    pub pagination: RecordShape,
    pub record: RecordShape,
    pub mode: Mode,
}

/// What a paginated response document decodes to.
pub open spec fn page_spec(d: PageDecoder, doc: Json) -> Result<(Seq<RecordModel>, Pagination), Failure> {
    match doc {
        Json::Object(ms) => match decode_spec(d.page_envelope.fields@, d.mode, ms@) {
            Err(e) => Err((seq![PathStep::Field(e.field@)], e.cause)),
            Ok(env) => match env.0[0] {
                FieldValue::Any(Json::Array(items)) => match env.0[1] {
                    FieldValue::Any(Json::Object(pm)) => match items_spec(d.record.fields@, d.mode, items@) {
                        Err(f) => Err((seq![PathStep::Field("data"@)] + f.0, f.1)),
                        Ok(rs) => match pagination_spec(d.pagination.fields@, pm@) {
                            Err(f) => Err((seq![PathStep::Field("pagination"@)] + f.0, f.1)),
                            Ok(p) => Ok((rs, p)),
                        },
                    },
                    _ => Err((seq![PathStep::Field("pagination"@)], DecodeCause::InvalidType)),
                },
                _ => Err((seq![PathStep::Field("data"@)], DecodeCause::InvalidType)),
            },
        },
        _ => Err((Seq::empty(), DecodeCause::InvalidType)),
    }
}

/// The value that a single-value response document carries.
pub open spec fn data_spec(d: PageDecoder, doc: Json) -> Result<Json, Failure> {
    match doc {
        Json::Object(ms) => match decode_spec(d.data_envelope.fields@, d.mode, ms@) {
            Err(e) => Err((seq![PathStep::Field(e.field@)], e.cause)),
            Ok(env) => match env.0[0] {
                FieldValue::Any(item) => Ok(item),
                _ => Err((seq![PathStep::Field("data"@)], DecodeCause::InvalidType)),
            },
        },
        _ => Err((Seq::empty(), DecodeCause::InvalidType)),
    }
}

/// What a single-value response document decodes to.
pub open spec fn single_spec(d: PageDecoder, doc: Json) -> Result<RecordModel, Failure> {
    match doc {
        Json::Object(ms) => match decode_spec(d.data_envelope.fields@, d.mode, ms@) {
            Err(e) => Err((seq![PathStep::Field(e.field@)], e.cause)),
            Ok(env) => match env.0[0] {
                FieldValue::Any(item) => match item_spec(d.record.fields@, d.mode, item) {
                    Err(f) => Err((seq![PathStep::Field("data"@)] + f.0, f.1)),
                    Ok(r) => Ok(r),
                },
                _ => Err((seq![PathStep::Field("data"@)], DecodeCause::InvalidType)),
            },
        },
        _ => Err((Seq::empty(), DecodeCause::InvalidType)),
    }
}

/// The views of a path.
pub open spec fn path_view(p: Seq<PathSegment>) -> Seq<PathStep> {
    p.map_values(|s: PathSegment| s@)
}

fn required(name: &str, kind: FieldKind) -> (r: FieldSpec)
    ensures
        required_field(r, name@, kind),
{
    FieldSpec { name: name.to_owned(), kind, optional: false }
}

fn field_segment(name: &str) -> (r: PathSegment)
    ensures
        r@ == PathStep::Field(name@),
{
    PathSegment::Field(name.to_owned())
}

/// The shape of a page descriptor.
pub fn pagination_shape() -> (r: RecordShape)
    ensures
        is_pagination_shape(r.fields@),
{
    let mut fields: Vec<FieldSpec> = Vec::new();
    fields.push(required("index", FieldKind::Integer));
    fields.push(required("pageSize", FieldKind::Integer));
    fields.push(required("resultCount", FieldKind::Integer));
    fields.push(required("totalCount", FieldKind::Integer));
    RecordShape { fields }
}

impl PageDecoder {
    /// The decoder is built for the service's envelopes.
    pub open spec fn wf(&self) -> bool {
        &&& is_page_envelope(self.page_envelope.fields@)
        &&& is_data_envelope(self.data_envelope.fields@)
        &&& is_pagination_shape(self.pagination.fields@)
    }

    /// A decoder for records of the given shape under the given mode.
    pub fn new(record: RecordShape, mode: Mode) -> (r: PageDecoder)
        ensures
            r.wf(),
            r.record == record,
            r.mode == mode,
    {
        let mut page_fields: Vec<FieldSpec> = Vec::new();
        page_fields.push(required("data", FieldKind::Any));
        page_fields.push(required("pagination", FieldKind::Any));
        let mut data_fields: Vec<FieldSpec> = Vec::new();
        data_fields.push(required("data", FieldKind::Any));
        PageDecoder {
            page_envelope: RecordShape { fields: page_fields },
            data_envelope: RecordShape { fields: data_fields },
            pagination: pagination_shape(),
            record,
            mode,
        }
    }
}

fn small(v: &FieldValue) -> (r: Option<i32>)
    ensures
        r == small_int(*v),
{
    match v {
        FieldValue::Integer(i) => if *i >= i32::MIN as i64 && *i <= i32::MAX as i64 {
            Some(*i as i32)
        } else {
            None
        },
        _ => None,
    }
}

/// Decodes the members of a page descriptor, given the descriptor's shape.
pub fn decode_pagination(shape: &RecordShape, members: Vec<Member>) -> (r: Result<Pagination, (Vec<PathSegment>, DecodeCause)>)
    requires
        is_pagination_shape(shape.fields@),
    ensures
        match (r, pagination_spec(shape.fields@, members@)) {
            (Ok(p), Ok(q)) => p == q,
            (Err(e), Err(f)) => path_view(e.0@) == f.0 && e.1 == f.1,
            _ => false,
        },
{
    match decode_record(shape, Mode::Strict, members) {
        Err(e) => {
            let mut path: Vec<PathSegment> = Vec::new();
            path.push(PathSegment::Field(e.field));
            assert(path_view(path@) =~= seq![PathStep::Field(e.field@)]);
            Err((path, e.cause))
        },
        Ok(rec) => {
            let values = &rec.values;
            let mut path: Vec<PathSegment> = Vec::new();
            let index = small(&values[0]);
            let page_size = small(&values[1]);
            let result_count = small(&values[2]);
            let total_count: Option<i64> = match &values[3] {
                FieldValue::Integer(i) => Some(*i),
                _ => None,
            };
            match (index, page_size, result_count, total_count) {
                (Some(index), Some(page_size), Some(result_count), Some(total_count)) => {
                    Ok(Pagination { index, page_size, result_count, total_count })
                },
                _ => {
                    if index.is_none() {
                        path.push(field_segment("index"));
                    } else if page_size.is_none() {
                        path.push(field_segment("pageSize"));
                    } else if result_count.is_none() {
                        path.push(field_segment("resultCount"));
                    } else {
                        path.push(field_segment("totalCount"));
                    }
                    assert(path_view(path@) =~= seq![path@[0]@]);
                    Err((path, DecodeCause::InvalidType))
                },
            }
        },
    }
}

fn prefixed(seg: PathSegment, path: Vec<PathSegment>) -> (r: Vec<PathSegment>)
    ensures
        path_view(r@) == seq![seg@] + path_view(path@),
{
    let mut r: Vec<PathSegment> = Vec::new();
    r.push(seg);
    let mut path = path;
    let ghost tail = path@;
    r.append(&mut path);
    assert(path_view(r@) =~= seq![seg@] + path_view(tail));
    r
}

fn single_segment(seg: PathSegment) -> (r: Vec<PathSegment>)
    ensures
        path_view(r@) == seq![seg@],
{
    let mut r: Vec<PathSegment> = Vec::new();
    r.push(seg);
    assert(path_view(r@) =~= seq![seg@]);
    r
}

/// Decodes one element of a `data` array as a record.
pub fn decode_item(shape: &RecordShape, mode: Mode, item: Json) -> (r: Result<Record, (Vec<PathSegment>, DecodeCause)>)
    ensures
        match (r, item_spec(shape.fields@, mode, item)) {
            (Ok(rec), Ok(m)) => record_model(rec) == m,
            (Err(e), Err(f)) => path_view(e.0@) == f.0 && e.1 == f.1,
            _ => false,
        },
{
    match item {
        Json::Object(ms) => match decode_record(shape, mode, ms) {
            Ok(rec) => Ok(rec),
            Err(e) => Err((single_segment(PathSegment::Field(e.field)), e.cause)),
        },
        _ => {
            let path: Vec<PathSegment> = Vec::new();
            assert(path_view(path@) =~= Seq::<PathStep>::empty());
            Err((path, DecodeCause::InvalidType))
        },
    }
}

proof fn lemma_items_failure_stays(fields: Seq<FieldSpec>, mode: Mode, items: Seq<Json>, k: int)
    requires
        0 <= k <= items.len(),
        items_spec(fields, mode, items.take(k)) is Err,
    ensures
        items_spec(fields, mode, items) == items_spec(fields, mode, items.take(k)),
    decreases items.len() - k,
{
    if k < items.len() {
        assert(items.take(k + 1).drop_last() =~= items.take(k));
        lemma_items_failure_stays(fields, mode, items, k + 1);
    } else {
        assert(items.take(k) =~= items);
    }
}

/// Decodes the elements of a `data` array as records, in order.
pub fn decode_items(shape: &RecordShape, mode: Mode, items: Vec<Json>) -> (r: Result<Vec<Record>, (Vec<PathSegment>, DecodeCause)>)
    ensures
        match (r, items_spec(shape.fields@, mode, items@)) {
            (Ok(recs), Ok(m)) => recs@.map_values(|x: Record| record_model(x)) == m,
            (Err(e), Err(f)) => path_view(e.0@) == f.0 && e.1 == f.1,
            _ => false,
        },
{
    let ghost fields = shape.fields@;
    let ghost all = items@;
    let total = items.len();
    let mut rest = items;
    let mut out: Vec<Record> = Vec::new();
    let mut k: usize = 0;
    assert(all.take(0) =~= Seq::<Json>::empty());
    assert(out@.map_values(|x: Record| record_model(x)) =~= Seq::<RecordModel>::empty());
    while rest.len() > 0
        invariant
            fields == shape.fields@,
            all == items@,
            all.len() == total,
            k <= all.len(),
            rest@ == all.skip(k as int),
            items_spec(fields, mode, all.take(k as int)) == Ok::<Seq<RecordModel>, Failure>(
                out@.map_values(|x: Record| record_model(x)),
            ),
        decreases rest@.len(),
    {
        let item = rest.remove(0);
        proof {
            assert(all.skip(k as int)[0] == all[k as int]);
            assert(all.skip(k + 1) =~= all.skip(k as int).remove(0));
            assert(all.take(k + 1).drop_last() =~= all.take(k as int));
            assert(all.take(k + 1).last() == item);
        }
        match decode_item(shape, mode, item) {
            Ok(rec) => {
                let ghost before = out@;
                out.push(rec);
                assert(out@.map_values(|x: Record| record_model(x)) =~= before.map_values(
                    |x: Record| record_model(x),
                ).push(record_model(rec)));
            },
            Err(e) => {
                let path = prefixed(PathSegment::Index(k), e.0);
                proof {
                    lemma_items_failure_stays(fields, mode, all, k + 1);
                }
                return Err((path, e.1));
            },
        }
        k = k + 1;
    }
    assert(all.take(k as int) =~= all);
    Ok(out)
}

/// What the value kept for a field decodes to as a nested record of the
/// given shape; a failure carries its path from the field.
pub open spec fn nested_spec(name: Seq<char>, shape: Seq<FieldSpec>, mode: Mode, v: FieldValue) -> Result<RecordModel, Failure> {
    match v {
        FieldValue::Any(j) => match item_spec(shape, mode, j) {
            Ok(r) => Ok(r),
            Err(f) => Err((seq![PathStep::Field(name)] + f.0, f.1)),
        },
        _ => Err((seq![PathStep::Field(name)], DecodeCause::InvalidType)),
    }
}

/// What the value kept for a field decodes to as a list of nested records
/// of the given shape; a failure carries its path from the field.
pub open spec fn nested_list_spec(name: Seq<char>, shape: Seq<FieldSpec>, mode: Mode, v: FieldValue) -> Result<Seq<RecordModel>, Failure> {
    match v {
        FieldValue::Any(Json::Array(items)) => match items_spec(shape, mode, items@) {
            Ok(rs) => Ok(rs),
            Err(f) => Err((seq![PathStep::Field(name)] + f.0, f.1)),
        },
        _ => Err((seq![PathStep::Field(name)], DecodeCause::InvalidType)),
    }
}

/// Decodes the value kept for a field of kind `Any` as a nested record of
/// the given shape, with the path of a failure starting at that field.
pub fn decode_nested(field: &FieldSpec, value: FieldValue, shape: &RecordShape, mode: Mode) -> (r: Result<Record, (Vec<PathSegment>, DecodeCause)>)
    ensures
        match (r, nested_spec(field.name@, shape.fields@, mode, value)) {
            (Ok(rec), Ok(m)) => record_model(rec) == m,
            (Err(e), Err(f)) => path_view(e.0@) == f.0 && e.1 == f.1,
            _ => false,
        },
{
    match value {
        FieldValue::Any(j) => match decode_item(shape, mode, j) {
            Ok(rec) => Ok(rec),
            Err(e) => Err((prefixed(PathSegment::Field(field.name.clone()), e.0), e.1)),
        },
        _ => Err((single_segment(PathSegment::Field(field.name.clone())), DecodeCause::InvalidType)),
    }
}

/// Decodes the value kept for a field of kind `Any` as a list of nested
/// records of the given shape, with the path of a failure starting at that
/// field.
pub fn decode_nested_list(field: &FieldSpec, value: FieldValue, shape: &RecordShape, mode: Mode) -> (r: Result<Vec<Record>, (Vec<PathSegment>, DecodeCause)>)
    ensures
        match (r, nested_list_spec(field.name@, shape.fields@, mode, value)) {
            (Ok(recs), Ok(m)) => recs@.map_values(|x: Record| record_model(x)) == m,
            (Err(e), Err(f)) => path_view(e.0@) == f.0 && e.1 == f.1,
            _ => false,
        },
{
    match value {
        FieldValue::Any(Json::Array(items)) => match decode_items(shape, mode, items) {
            Ok(recs) => Ok(recs),
            Err(e) => Err((prefixed(PathSegment::Field(field.name.clone()), e.0), e.1)),
        },
        _ => Err((single_segment(PathSegment::Field(field.name.clone())), DecodeCause::InvalidType)),
    }
}

impl PageDecoder {
    /// Decodes a paginated response document.
    pub fn decode_page(&self, doc: Json) -> (r: Result<Page<Record>, (Vec<PathSegment>, DecodeCause)>)
        requires
            self.wf(),
        ensures
            match (r, page_spec(*self, doc)) {
                (Ok(page), Ok(m)) => page.records@.map_values(|x: Record| record_model(x)) == m.0
                    && page.pagination == m.1,
                (Err(e), Err(f)) => path_view(e.0@) == f.0 && e.1 == f.1,
                _ => false,
            },
    {
        let ms = match doc {
            Json::Object(ms) => ms,
            _ => {
                let path: Vec<PathSegment> = Vec::new();
                assert(path_view(path@) =~= Seq::<PathStep>::empty());
                return Err((path, DecodeCause::InvalidType));
            },
        };
        let env = match decode_record(&self.page_envelope, self.mode, ms) {
            Ok(env) => env,
            Err(e) => {
                return Err((single_segment(PathSegment::Field(e.field)), e.cause));
            },
        };
        let Record { values: mut values, residual: _ } = env;
        let ghost vs = values@;
        let first = values.remove(0);
        let second = values.remove(0);
        assert(first == vs[0] && second == vs[1]);
        let items = match first {
            FieldValue::Any(Json::Array(items)) => items,
            _ => {
                return Err((single_segment(field_segment("data")), DecodeCause::InvalidType));
            },
        };
        let pm = match second {
            FieldValue::Any(Json::Object(pm)) => pm,
            _ => {
                return Err((single_segment(field_segment("pagination")), DecodeCause::InvalidType));
            },
        };
        let records = match decode_items(&self.record, self.mode, items) {
            Ok(records) => records,
            Err(e) => {
                return Err((prefixed(field_segment("data"), e.0), e.1));
            },
        };
        match decode_pagination(&self.pagination, pm) {
            Ok(pagination) => Ok(Page { records, pagination }),
            Err(e) => Err((prefixed(field_segment("pagination"), e.0), e.1)),
        }
    }

    /// The value that a single-value response document carries, whatever
    /// its type.
    pub fn decode_data(&self, doc: Json) -> (r: Result<Json, (Vec<PathSegment>, DecodeCause)>)
        requires
            self.wf(),
        ensures
            match (r, data_spec(*self, doc)) {
                (Ok(v), Ok(m)) => v == m,
                (Err(e), Err(f)) => path_view(e.0@) == f.0 && e.1 == f.1,
                _ => false,
            },
    {
        let ms = match doc {
            Json::Object(ms) => ms,
            _ => {
                let path: Vec<PathSegment> = Vec::new();
                assert(path_view(path@) =~= Seq::<PathStep>::empty());
                return Err((path, DecodeCause::InvalidType));
            },
        };
        let env = match decode_record(&self.data_envelope, self.mode, ms) {
            Ok(env) => env,
            Err(e) => {
                return Err((single_segment(PathSegment::Field(e.field)), e.cause));
            },
        };
        let Record { values: mut values, residual: _ } = env;
        let ghost vs = values@;
        let first = values.remove(0);
        assert(first == vs[0]);
        match first {
            FieldValue::Any(item) => Ok(item),
            _ => Err((single_segment(field_segment("data")), DecodeCause::InvalidType)),
        }
    }

    /// Decodes a single-value response document.
    pub fn decode_single(&self, doc: Json) -> (r: Result<Record, (Vec<PathSegment>, DecodeCause)>)
        requires
            self.wf(),
        ensures
            match (r, single_spec(*self, doc)) {
                (Ok(rec), Ok(m)) => record_model(rec) == m,
                (Err(e), Err(f)) => path_view(e.0@) == f.0 && e.1 == f.1,
                _ => false,
            },
    {
        let ms = match doc {
            Json::Object(ms) => ms,
            _ => {
                let path: Vec<PathSegment> = Vec::new();
                assert(path_view(path@) =~= Seq::<PathStep>::empty());
                return Err((path, DecodeCause::InvalidType));
            },
        };
        let env = match decode_record(&self.data_envelope, self.mode, ms) {
            Ok(env) => env,
            Err(e) => {
                return Err((single_segment(PathSegment::Field(e.field)), e.cause));
            },
        };
        let Record { values: mut values, residual: _ } = env;
        let ghost vs = values@;
        let first = values.remove(0);
        assert(first == vs[0]);
        match first {
            FieldValue::Any(item) => match decode_item(&self.record, self.mode, item) {
                Ok(rec) => Ok(rec),
                Err(e) => Err((prefixed(field_segment("data"), e.0), e.1)),
            },
            _ => Err((single_segment(field_segment("data")), DecodeCause::InvalidType)),
        }
    }
}

/// The status code of a successful response.
pub const STATUS_OK: u16 = 200;

impl PageDecoder {
    /// Turns the response to a request for one page into the page or an
    /// error: a status other than `STATUS_OK` gives `StatusNotOk` with the
    /// body; a body that did not parse (`doc` holds the parser's message), or
    /// whose document does not decode, gives `Deserialize` with the body, the
    /// path and the cause.
    pub fn read_page_response(&self, status: u16, bytes: Vec<u8>, doc: Result<Json, String>) -> (r: Result<
        Page<Record>,
        Error,
    >)
        requires
            self.wf(),
        ensures
            status != STATUS_OK ==> (r matches Err(Error::StatusNotOk { status: s, bytes: b })
                && s == status && b@ == bytes@),
            status == STATUS_OK ==> match doc {
                Err(msg) => (r matches Err(Error::Deserialize(e)) && e.bytes@ == bytes@
                    && e.path@.len() == 0 && e.cause == DecodeCause::Syntax(msg)),
                Ok(d) => match (r, page_spec(*self, d)) {
                    (Ok(page), Ok(m)) => page.records@.map_values(|x: Record| record_model(x))
                        == m.0 && page.pagination == m.1,
                    (Err(Error::Deserialize(e)), Err(f)) => e.bytes@ == bytes@ && path_view(e.path@)
                        == f.0 && e.cause == f.1,
                    _ => false,
                },
            },
    {
        if status != STATUS_OK {
            return Err(Error::StatusNotOk { status, bytes });
        }
        match doc {
            Err(msg) => Err(
                Error::Deserialize(DecodeError { bytes, path: Vec::new(), cause: DecodeCause::Syntax(msg) }),
            ),
            Ok(d) => match self.decode_page(d) {
                Ok(page) => Ok(page),
                Err(e) => Err(Error::Deserialize(DecodeError { bytes, path: e.0, cause: e.1 })),
            },
        }
    }

    /// Turns the response to a request for one value into that value,
    /// whatever its type, or an error, as `read_page_response` does for a
    /// page.
    pub fn read_data_response(&self, status: u16, bytes: Vec<u8>, doc: Result<Json, String>) -> (r: Result<
        Json,
        Error,
    >)
        requires
            self.wf(),
        ensures
            status != STATUS_OK ==> (r matches Err(Error::StatusNotOk { status: s, bytes: b })
                && s == status && b@ == bytes@),
            status == STATUS_OK ==> match doc {
                Err(msg) => (r matches Err(Error::Deserialize(e)) && e.bytes@ == bytes@
                    && e.path@.len() == 0 && e.cause == DecodeCause::Syntax(msg)),
                Ok(d) => match (r, data_spec(*self, d)) {
                    (Ok(v), Ok(m)) => v == m,
                    (Err(Error::Deserialize(e)), Err(f)) => e.bytes@ == bytes@ && path_view(e.path@)
                        == f.0 && e.cause == f.1,
                    _ => false,
                },
            },
    {
        if status != STATUS_OK {
            return Err(Error::StatusNotOk { status, bytes });
        }
        match doc {
            Err(msg) => Err(
                Error::Deserialize(DecodeError { bytes, path: Vec::new(), cause: DecodeCause::Syntax(msg) }),
            ),
            Ok(d) => match self.decode_data(d) {
                Ok(v) => Ok(v),
                Err(e) => Err(Error::Deserialize(DecodeError { bytes, path: e.0, cause: e.1 })),
            },
        }
    }

    /// Turns the response to a request for one value into the record or an
    /// error, as `read_page_response` does for a page.
    pub fn read_single_response(&self, status: u16, bytes: Vec<u8>, doc: Result<Json, String>) -> (r: Result<
        Record,
        Error,
    >)
        requires
            self.wf(),
        ensures
            status != STATUS_OK ==> (r matches Err(Error::StatusNotOk { status: s, bytes: b })
                && s == status && b@ == bytes@),
            status == STATUS_OK ==> match doc {
                Err(msg) => (r matches Err(Error::Deserialize(e)) && e.bytes@ == bytes@
                    && e.path@.len() == 0 && e.cause == DecodeCause::Syntax(msg)),
                Ok(d) => match (r, single_spec(*self, d)) {
                    (Ok(rec), Ok(m)) => record_model(rec) == m,
                    (Err(Error::Deserialize(e)), Err(f)) => e.bytes@ == bytes@ && path_view(e.path@)
                        == f.0 && e.cause == f.1,
                    _ => false,
                },
            },
    {
        if status != STATUS_OK {
            return Err(Error::StatusNotOk { status, bytes });
        }
        match doc {
            Err(msg) => Err(
                Error::Deserialize(DecodeError { bytes, path: Vec::new(), cause: DecodeCause::Syntax(msg) }),
            ),
            Ok(d) => match self.decode_single(d) {
                Ok(rec) => Ok(rec),
                Err(e) => Err(Error::Deserialize(DecodeError { bytes, path: e.0, cause: e.1 })),
            },
        }
    }
}

} // verus!
