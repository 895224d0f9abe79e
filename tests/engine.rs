use curseforge::{
    Error, Json, Mode, Page, PageDecoder, PaginatedStream, Pagination, Step, StreamState,
    API_PAGINATION_RESULTS_LIMIT,
};
use curseforge::{FieldKind, FieldSpec, RecordShape, STATUS_OK};

fn page(index: i32, total: i64, records: Vec<u32>) -> Page<u32> {
    let n = records.len() as i32;
    Page { records, pagination: Pagination { index, page_size: n, result_count: n, total_count: total } }
}

/// Drives a stream against pages that a stub serves in order; returns the
/// items, the offsets fetched, and the error if one ended the stream.
fn drive(stream: &mut PaginatedStream<u32>, pages: Vec<Page<u32>>) -> (Vec<u32>, Vec<usize>, Option<Error>) {
    let mut pages = pages.into_iter();
    let mut items = Vec::new();
    let mut fetches = Vec::new();
    loop {
        match stream.poll_next() {
            Step::Item(x) => items.push(x),
            Step::End => return (items, fetches, None),
            Step::Fetch(offset) => {
                fetches.push(offset);
                let outcome = match pages.next() {
                    Some(p) => Ok(p),
                    None => Err(Error::Request("no more pages".to_string())),
                };
                if let Err(e) = stream.deliver(outcome) {
                    return (items, fetches, Some(e));
                }
            }
        }
    }
}

#[test]
fn pages_of_two_with_total_five() {
    let mut stream = PaginatedStream::new(None, 100);
    let pages = vec![page(0, 5, vec![1, 2]), page(2, 5, vec![3, 4]), page(4, 5, vec![5])];
    let (items, fetches, error) = drive(&mut stream, pages);
    assert_eq!(items, vec![1, 2, 3, 4, 5]);
    assert_eq!(fetches, vec![0, 2, 4]);
    assert!(error.is_none());
    assert_eq!(stream.state(), StreamState::Exhausted);
}

#[test]
fn cap_stops_the_stream() {
    let cap = 6;
    let mut stream = PaginatedStream::new(None, cap);
    let total = cap as i64 + 1000;
    let pages = vec![page(0, total, vec![1, 2, 3]), page(3, total, vec![4, 5, 6]), page(6, total, vec![7, 8, 9])];
    let (items, fetches, error) = drive(&mut stream, pages);
    assert_eq!(items.len(), cap);
    assert_eq!(fetches, vec![0, 3]);
    assert!(error.is_none());
}

#[test]
fn service_cap_is_ten_thousand() {
    assert_eq!(API_PAGINATION_RESULTS_LIMIT, 10_000);
    let mut stream: PaginatedStream<u32> = PaginatedStream::new(Some(10_000), API_PAGINATION_RESULTS_LIMIT);
    assert!(matches!(stream.poll_next(), Step::End));
}

#[test]
fn end_repeats_without_fetching() {
    let mut stream = PaginatedStream::new(None, 100);
    let (items, _, _) = drive(&mut stream, vec![page(0, 1, vec![7])]);
    assert_eq!(items, vec![7]);
    for _ in 0..3 {
        assert!(matches!(stream.poll_next(), Step::End));
    }
    assert_eq!(stream.offset(), 1);
}

#[test]
fn short_page_is_a_protocol_violation() {
    let mut stream: PaginatedStream<u32> = PaginatedStream::new(None, 100);
    assert!(matches!(stream.poll_next(), Step::Fetch(0)));
    let bad = Page {
        records: vec![1, 2, 3],
        pagination: Pagination { index: 0, page_size: 5, result_count: 5, total_count: 50 },
    };
    match stream.deliver(Ok(bad)) {
        Err(Error::ProtocolViolation { requested, index, result_count, received }) => {
            assert_eq!((requested, index, result_count, received), (0, 0, 5, 3));
        }
        other => panic!("unexpected {:?}", other),
    }
    assert_eq!(stream.state(), StreamState::Failed);
    assert!(matches!(stream.poll_next(), Step::End));
}

#[test]
fn wrong_index_is_a_protocol_violation() {
    let mut stream: PaginatedStream<u32> = PaginatedStream::new(Some(4), 100);
    assert!(matches!(stream.poll_next(), Step::Fetch(4)));
    let result = stream.deliver(Ok(page(0, 50, vec![1])));
    assert!(matches!(result, Err(Error::ProtocolViolation { requested: 4, index: 0, .. })));
}

#[test]
fn order_is_kept_across_pages() {
    let mut stream = PaginatedStream::new(None, 100);
    let pages = vec![page(0, 6, vec![9, 3]), page(2, 6, vec![8]), page(3, 6, vec![1, 7, 2])];
    let (items, fetches, _) = drive(&mut stream, pages);
    assert_eq!(items, vec![9, 3, 8, 1, 7, 2]);
    assert_eq!(fetches, vec![0, 2, 3]);
}

#[test]
fn empty_page_ends_the_stream() {
    let mut stream = PaginatedStream::new(None, 100);
    let (items, fetches, error) = drive(&mut stream, vec![page(0, 10, vec![1]), page(1, 10, vec![])]);
    assert_eq!(items, vec![1]);
    assert_eq!(fetches, vec![0, 1]);
    assert!(error.is_none());
    assert!(matches!(stream.poll_next(), Step::End));
}

#[test]
fn failed_fetch_is_handed_back_once() {
    let mut stream: PaginatedStream<u32> = PaginatedStream::new(None, 100);
    let (items, _, error) = drive(&mut stream, vec![page(0, 10, vec![1, 2])]);
    assert_eq!(items, vec![1, 2]);
    assert!(matches!(error, Some(Error::Request(_))));
    assert_eq!(stream.state(), StreamState::Failed);
    assert!(matches!(stream.poll_next(), Step::End));
}

#[test]
fn size_hint_follows_the_reported_total() {
    let mut stream: PaginatedStream<u32> = PaginatedStream::new(None, 100);
    assert_eq!(stream.size_hint(), (0, None));
    assert_eq!(stream.limit(), 100);
    assert!(stream.pagination().is_none());
    assert!(matches!(stream.poll_next(), Step::Fetch(0)));
    stream.deliver(Ok(page(0, 42, vec![1]))).unwrap();
    assert_eq!(stream.size_hint(), (0, Some(42)));
    assert_eq!(stream.pagination().unwrap().total_count, 42);
    let mut big: PaginatedStream<u32> = PaginatedStream::new(None, 100);
    assert!(matches!(big.poll_next(), Step::Fetch(0)));
    big.deliver(Ok(page(0, 5000, vec![1]))).unwrap();
    assert_eq!(big.size_hint(), (0, Some(100)));
}

fn str_json(s: &str) -> Json {
    Json::Str(s.to_string())
}

fn project(id: i64) -> Json {
    Json::Object(vec![
        ("id".to_string(), Json::Int(id)),
        ("name".to_string(), str_json("A project")),
        ("dateModified".to_string(), str_json("2022-01-02T03:04:05Z")),
    ])
}

fn search_page(index: i64, ids: Vec<i64>, total: i64) -> Json {
    let n = ids.len() as i64;
    Json::Object(vec![
        ("data".to_string(), Json::Array(ids.into_iter().map(project).collect())),
        (
            "pagination".to_string(),
            Json::Object(vec![
                ("index".to_string(), Json::Int(index)),
                ("pageSize".to_string(), Json::Int(n)),
                ("resultCount".to_string(), Json::Int(n)),
                ("totalCount".to_string(), Json::Int(total)),
            ]),
        ),
    ])
}

fn project_shape() -> RecordShape {
    RecordShape {
        fields: vec![
            FieldSpec { name: "id".to_string(), kind: FieldKind::Integer, optional: false },
            FieldSpec { name: "name".to_string(), kind: FieldKind::Text, optional: false },
            FieldSpec { name: "dateModified".to_string(), kind: FieldKind::Timestamp, optional: false },
        ],
    }
}

fn sample_projects() -> Vec<curseforge::Record> {
    let decoder = PageDecoder::new(project_shape(), Mode::Ignore);
    let mut stream = PaginatedStream::new(None, API_PAGINATION_RESULTS_LIMIT);
    let mut docs = vec![search_page(0, vec![10, 11], 3), search_page(2, vec![12], 3)].into_iter();
    let mut projects = Vec::new();
    loop {
        match stream.poll_next() {
            Step::Item(p) => projects.push(p),
            Step::End => break,
            Step::Fetch(_) => {
                let doc = docs.next().unwrap();
                let page = decoder.read_page_response(STATUS_OK, Vec::new(), Ok(doc));
                stream.deliver(page).unwrap();
            }
        }
    }
    projects
}

#[test]
fn curseforge_search_projects_iter() {
    assert!(!sample_projects().is_empty())
}

#[test]
fn endpoints_search_projects_iter() {
    assert!(!sample_projects().is_empty())
}

#[test]
fn search_pages_decode_through_the_stream() {
    let projects = sample_projects();
    assert_eq!(projects.len(), 3);
    let ids: Vec<_> = projects
        .iter()
        .map(|p| match &p.values[0] {
            curseforge::FieldValue::Integer(i) => *i,
            _ => -1,
        })
        .collect();
    assert_eq!(ids, vec![10, 11, 12]);
}
