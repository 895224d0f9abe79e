use curseforge::{decode_nested, decode_nested_list};
use curseforge::{
    decode_record, encode_record, nullable_datetime, nullable_string, DecodeCause, Error,
    FieldKind, FieldSpec, FieldValue, Json, Mode, PageDecoder, PathSegment, RecordShape, NULL_TIMESTAMP,
    STATUS_OK,
};

fn s(v: &str) -> String {
    v.to_string()
}

fn field(name: &str, kind: FieldKind, optional: bool) -> FieldSpec {
    FieldSpec { name: s(name), kind, optional }
}

fn category_shape() -> RecordShape {
    RecordShape {
        fields: vec![
            field("id", FieldKind::Integer, false),
            field("name", FieldKind::Text, false),
            field("isClass", FieldKind::Flag, true),
            field("url", FieldKind::NullableText, true),
            field("dateModified", FieldKind::NullableTimestamp, false),
            field("status", FieldKind::Tag(vec![1, 2, 3]), false),
        ],
    }
}

fn category_members(extra: Option<(&str, Json)>) -> Vec<(String, Json)> {
    let mut ms = vec![
        (s("id"), Json::Int(6)),
        (s("name"), Json::Str(s("Tools"))),
        (s("isClass"), Json::Bool(false)),
        (s("url"), Json::Str(s("https://example.org/tools"))),
        (s("dateModified"), Json::Str(s("2021-05-06T07:08:09Z"))),
        (s("status"), Json::Int(2)),
    ];
    if let Some((k, v)) = extra {
        ms.insert(3, (s(k), v));
    }
    ms
}

fn same_json(a: &Json, b: &Json) -> bool {
    match (a, b) {
        (Json::Null, Json::Null) => true,
        (Json::Bool(x), Json::Bool(y)) => x == y,
        (Json::Int(x), Json::Int(y)) => x == y,
        (Json::Number(x), Json::Number(y)) => x == y,
        (Json::Str(x), Json::Str(y)) => x == y,
        (Json::Array(x), Json::Array(y)) => x.len() == y.len() && x.iter().zip(y).all(|(p, q)| same_json(p, q)),
        (Json::Object(x), Json::Object(y)) => {
            x.len() == y.len() && x.iter().zip(y).all(|(p, q)| p.0 == q.0 && same_json(&p.1, &q.1))
        }
        _ => false,
    }
}

#[test]
fn lenient_round_trip_keeps_unknown_member() {
    let shape = category_shape();
    let payload = category_members(Some(("newField", Json::Str(s("surprise")))));
    let record = decode_record(&shape, Mode::Lenient, payload).unwrap();
    assert_eq!(record.residual.len(), 1);
    assert_eq!(record.residual[0].0, "newField");
    let written = encode_record(&shape, record);
    let original = category_members(None);
    for (k, v) in &original {
        assert!(written.iter().any(|(k2, v2)| k2 == k && same_json(v, v2)), "lost {}", k);
    }
    let last = written.last().unwrap();
    assert_eq!(last.0, "newField");
    assert!(same_json(&last.1, &Json::Str(s("surprise"))));
    assert_eq!(written.len(), original.len() + 1);
}

#[test]
fn strict_rejection_names_unknown_field() {
    let shape = category_shape();
    let payload = category_members(Some(("newField", Json::Str(s("surprise")))));
    let error = decode_record(&shape, Mode::Strict, payload).unwrap_err();
    assert_eq!(error.field, "newField");
    assert!(matches!(error.cause, DecodeCause::UnknownField));
}

#[test]
fn ignore_mode_drops_unknown_member() {
    let shape = category_shape();
    let payload = category_members(Some(("newField", Json::Int(1))));
    let record = decode_record(&shape, Mode::Ignore, payload).unwrap();
    assert!(record.residual.is_empty());
    assert!(matches!(record.values[0], FieldValue::Integer(6)));
}

#[test]
fn null_timestamp_reads_as_absent() {
    let shape = category_shape();
    let mut payload = category_members(None);
    payload[4].1 = Json::Str(s("0001-01-01T00:00:00"));
    let record = decode_record(&shape, Mode::Strict, payload).unwrap();
    assert!(matches!(record.values[4], FieldValue::Absent));
    assert_eq!(NULL_TIMESTAMP, "0001-01-01T00:00:00");
    assert!(matches!(nullable_datetime(s(NULL_TIMESTAMP)), Some(None)));
}

#[test]
fn timestamps_are_read() {
    match nullable_datetime(s("1970-01-01T00:01:00.5Z")) {
        Some(Some(t)) => {
            assert_eq!(t.seconds, 60);
            assert_eq!(t.nanos, 500_000_000);
            assert_eq!(t.text, "1970-01-01T00:01:00.5Z");
        }
        other => panic!("unexpected {:?}", other),
    }
    match nullable_datetime(s("2012-12-12 12:12:12+01:00")) {
        Some(Some(t)) => assert_eq!(t.seconds, 1355310732),
        other => panic!("unexpected {:?}", other),
    }
    assert!(nullable_datetime(s("yesterday")).is_none());
}

#[test]
fn bad_timestamp_is_an_error() {
    let shape = category_shape();
    let mut payload = category_members(None);
    payload[4].1 = Json::Str(s("not a date"));
    let error = decode_record(&shape, Mode::Lenient, payload).unwrap_err();
    assert_eq!(error.field, "dateModified");
    assert!(matches!(error.cause, DecodeCause::InvalidTimestamp));
}

#[test]
fn nullable_strings() {
    assert_eq!(nullable_string(Some(s(""))), None);
    assert_eq!(nullable_string(Some(s("x"))), Some(s("x")));
    assert_eq!(nullable_string(None), None);
    let shape = category_shape();
    let mut payload = category_members(None);
    payload[3].1 = Json::Str(s(""));
    let record = decode_record(&shape, Mode::Strict, payload).unwrap();
    assert!(matches!(record.values[3], FieldValue::Absent));
}

#[test]
fn unknown_tags_by_mode() {
    let shape = category_shape();
    let mut payload = category_members(None);
    payload[5].1 = Json::Int(9);
    let record = decode_record(&shape, Mode::Lenient, payload).unwrap();
    assert!(matches!(record.values[5], FieldValue::UnknownTag));
    for mode in [Mode::Strict, Mode::Ignore] {
        let mut payload = category_members(None);
        payload[5].1 = Json::Int(9);
        let error = decode_record(&shape, mode, payload).unwrap_err();
        assert_eq!(error.field, "status");
        assert!(matches!(error.cause, DecodeCause::UnknownVariant(9)));
    }
}

#[test]
fn missing_duplicate_and_mistyped_fields() {
    let shape = category_shape();
    let mut payload = category_members(None);
    payload.remove(1);
    let error = decode_record(&shape, Mode::Lenient, payload).unwrap_err();
    assert_eq!(error.field, "name");
    assert!(matches!(error.cause, DecodeCause::MissingField));

    let mut payload = category_members(None);
    payload.push((s("id"), Json::Int(7)));
    let error = decode_record(&shape, Mode::Lenient, payload).unwrap_err();
    assert_eq!(error.field, "id");
    assert!(matches!(error.cause, DecodeCause::DuplicateField));

    let mut payload = category_members(None);
    payload[0].1 = Json::Str(s("6"));
    let error = decode_record(&shape, Mode::Lenient, payload).unwrap_err();
    assert_eq!(error.field, "id");
    assert!(matches!(error.cause, DecodeCause::InvalidType));
}

#[test]
fn optional_fields_may_be_missing_or_null() {
    let shape = category_shape();
    let mut payload = category_members(None);
    payload.remove(2);
    payload[2].1 = Json::Null;
    let record = decode_record(&shape, Mode::Strict, payload).unwrap();
    assert!(matches!(record.values[2], FieldValue::Absent));
    assert!(matches!(record.values[3], FieldValue::Absent));
}

fn envelope(data: Json, index: i64, count: i64) -> Json {
    Json::Object(vec![
        (s("data"), data),
        (
            s("pagination"),
            Json::Object(vec![
                (s("index"), Json::Int(index)),
                (s("pageSize"), Json::Int(50)),
                (s("resultCount"), Json::Int(count)),
                (s("totalCount"), Json::Int(120)),
            ]),
        ),
    ])
}

#[test]
fn page_decodes_records_and_descriptor() {
    let decoder = PageDecoder::new(category_shape(), Mode::Strict);
    let doc = envelope(Json::Array(vec![Json::Object(category_members(None))]), 50, 1);
    let page = decoder.read_page_response(STATUS_OK, b"{}".to_vec(), Ok(doc)).unwrap();
    assert_eq!(page.records.len(), 1);
    assert_eq!(page.pagination.index, 50);
    assert_eq!(page.pagination.page_size, 50);
    assert_eq!(page.pagination.result_count, 1);
    assert_eq!(page.pagination.total_count, 120);
}

#[test]
fn page_error_path_points_at_the_field() {
    let decoder = PageDecoder::new(category_shape(), Mode::Strict);
    let good = Json::Object(category_members(None));
    let bad = Json::Object(category_members(Some(("newField", Json::Null))));
    let doc = envelope(Json::Array(vec![good, bad]), 0, 2);
    match decoder.read_page_response(STATUS_OK, b"raw".to_vec(), Ok(doc)) {
        Err(Error::Deserialize(e)) => {
            assert_eq!(e.bytes, b"raw".to_vec());
            assert!(matches!(e.cause, DecodeCause::UnknownField));
            assert_eq!(e.path.len(), 3);
            assert!(matches!(&e.path[0], PathSegment::Field(f) if f == "data"));
            assert!(matches!(&e.path[1], PathSegment::Index(1)));
            assert!(matches!(&e.path[2], PathSegment::Field(f) if f == "newField"));
        }
        other => panic!("unexpected {:?}", other),
    }
}

#[test]
fn page_descriptor_out_of_range() {
    let decoder = PageDecoder::new(category_shape(), Mode::Lenient);
    let doc = envelope(Json::Array(vec![]), 1 << 40, 0);
    match decoder.read_page_response(STATUS_OK, Vec::new(), Ok(doc)) {
        Err(Error::Deserialize(e)) => {
            assert!(matches!(e.cause, DecodeCause::InvalidType));
            assert!(matches!(&e.path[0], PathSegment::Field(f) if f == "pagination"));
            assert!(matches!(&e.path[1], PathSegment::Field(f) if f == "index"));
        }
        other => panic!("unexpected {:?}", other),
    }
}

#[test]
fn status_and_syntax_errors() {
    let decoder = PageDecoder::new(category_shape(), Mode::Lenient);
    match decoder.read_page_response(404, b"nope".to_vec(), Ok(Json::Null)) {
        Err(Error::StatusNotOk { status, bytes }) => {
            assert_eq!(status, 404);
            assert_eq!(bytes, b"nope".to_vec());
        }
        other => panic!("unexpected {:?}", other),
    }
    match decoder.read_page_response(STATUS_OK, b"{".to_vec(), Err(s("EOF while parsing"))) {
        Err(Error::Deserialize(e)) => {
            assert!(e.path.is_empty());
            assert!(matches!(e.cause, DecodeCause::Syntax(ref m) if m == "EOF while parsing"));
        }
        other => panic!("unexpected {:?}", other),
    }
    match decoder.read_page_response(STATUS_OK, Vec::new(), Ok(Json::Array(vec![]))) {
        Err(Error::Deserialize(e)) => assert!(e.path.is_empty() && matches!(e.cause, DecodeCause::InvalidType)),
        other => panic!("unexpected {:?}", other),
    }
}

#[test]
fn single_value_envelope() {
    let decoder = PageDecoder::new(category_shape(), Mode::Lenient);
    let doc = Json::Object(vec![(s("data"), Json::Object(category_members(None)))]);
    let record = decoder.read_single_response(STATUS_OK, Vec::new(), Ok(doc)).unwrap();
    assert!(matches!(&record.values[1], FieldValue::Text(t) if t == "Tools"));
    let doc = Json::Object(vec![(s("data"), Json::Int(1))]);
    match decoder.read_single_response(STATUS_OK, Vec::new(), Ok(doc)) {
        Err(Error::Deserialize(e)) => {
            assert_eq!(e.path.len(), 1);
            assert!(matches!(e.cause, DecodeCause::InvalidType));
        }
        other => panic!("unexpected {:?}", other),
    }
}

#[test]
fn data_envelope_carries_any_value() {
    let decoder = PageDecoder::new(category_shape(), Mode::Strict);
    let doc = Json::Object(vec![(s("data"), Json::Str(s("<p>Hello</p>")))]);
    match decoder.read_data_response(STATUS_OK, Vec::new(), Ok(doc)) {
        Ok(Json::Str(text)) => assert_eq!(text, "<p>Hello</p>"),
        other => panic!("unexpected {:?}", other),
    }
    let doc = Json::Object(vec![(s("data"), Json::Int(1)), (s("extra"), Json::Null)]);
    match decoder.read_data_response(STATUS_OK, Vec::new(), Ok(doc)) {
        Err(Error::Deserialize(e)) => {
            assert!(matches!(&e.path[0], PathSegment::Field(f) if f == "extra"));
            assert!(matches!(e.cause, DecodeCause::UnknownField));
        }
        other => panic!("unexpected {:?}", other),
    }
    let lenient = PageDecoder::new(category_shape(), Mode::Lenient);
    let doc = Json::Object(vec![(s("data"), Json::Int(1)), (s("extra"), Json::Null)]);
    assert!(matches!(lenient.read_data_response(STATUS_OK, Vec::new(), Ok(doc)), Ok(Json::Int(1))));
}

#[test]
fn timestamp_wrapper_reads_the_instant() {
    let shape = RecordShape { fields: vec![field("at", FieldKind::Timestamp, false)] };
    let record = decode_record(&shape, Mode::Strict, vec![(s("at"), Json::Str(s("2000-01-01T00:00:00Z")))]).unwrap();
    match &record.values[0] {
        FieldValue::Time(t) => {
            assert_eq!(t.seconds, 946684800);
            assert_eq!(t.nanos, 0);
        }
        other => panic!("unexpected {:?}", other),
    }
}

#[test]
fn timestamp_from_a_read_instant() {
    let t = curseforge::timestamp::timestamp_from_instant(s("then"), Some((5, 6))).unwrap();
    assert_eq!((t.text.as_str(), t.seconds, t.nanos), ("then", 5, 6));
    assert!(curseforge::timestamp::timestamp_from_instant(s("never"), None).is_none());
    assert!(curseforge::timestamp::parse_timestamp(s("2000-01-01T00:00:00")).is_none());
}

#[test]
fn nested_records_report_their_path() {
    let outer = RecordShape {
        fields: vec![field("links", FieldKind::Any, false), field("authors", FieldKind::Any, false)],
    };
    let links_shape = RecordShape { fields: vec![field("wikiUrl", FieldKind::NullableText, true)] };
    let author_shape = RecordShape { fields: vec![field("name", FieldKind::Text, false)] };
    let author = |n: Json| Json::Object(vec![(s("name"), n)]);
    let members = vec![
        (s("links"), Json::Object(vec![(s("wikiUrl"), Json::Str(s("")))])),
        (s("authors"), Json::Array(vec![author(Json::Str(s("a"))), author(Json::Int(3))])),
    ];
    let mut record = decode_record(&outer, Mode::Strict, members).unwrap();
    let authors = record.values.pop().unwrap();
    let links = record.values.pop().unwrap();
    let links = decode_nested(&outer.fields[0], links, &links_shape, Mode::Strict).unwrap();
    assert!(matches!(links.values[0], FieldValue::Absent));
    let (path, cause) = decode_nested_list(&outer.fields[1], authors, &author_shape, Mode::Strict).unwrap_err();
    assert!(matches!(cause, DecodeCause::InvalidType));
    assert_eq!(path.len(), 3);
    assert!(matches!(&path[0], PathSegment::Field(f) if f == "authors"));
    assert!(matches!(&path[1], PathSegment::Index(1)));
    assert!(matches!(&path[2], PathSegment::Field(f) if f == "name"));
}
