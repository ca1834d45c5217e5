use goji_issues::options::{decimal_string, Param, SearchOptions};
use goji_issues::page::Paginated;
use goji_issues::paging::{IssuesIter, Pull};
use goji_issues::records::Board;
use goji_issues::request::{Error, Issues, Method, Request};

fn board() -> Board {
    Board { id: 7, name: String::from("team") }
}

fn served(items: &[u32], start: u64, size: u64) -> Paginated<u32> {
    let n = items.len() as u64;
    let values = if start >= n {
        Vec::new()
    } else {
        let end = std::cmp::min(start + size, n);
        items[start as usize..end as usize].to_vec()
    };
    Paginated { expand: String::from("names"), max_results: size, start_at: start, total: n, values }
}

fn query_value(req: &Request, key: &str) -> Option<String> {
    let query = req.path.split('?').nth(1)?;
    query.split('&').find_map(|pair| {
        let mut it = pair.splitn(2, '=');
        if it.next() == Some(key) { it.next().map(String::from) } else { None }
    })
}

/// Pulls until the end, answering each request from `items`; a request at
/// offset `fail_at` fails. Returns the items and the offsets requested.
fn run(iter: &mut IssuesIter<u32>, items: &[u32], size: u64, fail_at: Option<u64>) -> (Vec<u32>, Vec<u64>) {
    let mut out = Vec::new();
    let mut offsets = Vec::new();
    for _ in 0..1000 {
        match iter.next() {
            Pull::Item(t) => out.push(t),
            Pull::End => break,
            Pull::Fetch(req) => {
                assert_eq!(req.method, Method::Get);
                assert_eq!(req.api, "agile");
                let off: u64 = query_value(&req, "startAt").unwrap().parse().unwrap();
                let max: u64 = query_value(&req, "maxResults").unwrap().parse().unwrap();
                assert_eq!(max, size);
                offsets.push(off);
                let answer = if fail_at == Some(off) {
                    Err(Error::RequestFailed(String::from("503")))
                } else {
                    Ok(served(items, off, size))
                };
                match iter.resume(answer) {
                    Some(t) => out.push(t),
                    None => break,
                }
            }
        }
    }
    (out, offsets)
}

fn start(items: &[u32], size: u64) -> IssuesIter<u32> {
    let options = SearchOptions::new().max_results(size);
    Issues::new().iter(&board(), &options, Ok(served(items, 0, size))).ok().unwrap()
}

#[test]
fn full_walk_yields_every_item() {
    let items: Vec<u32> = (0..5).collect();
    let mut iter = start(&items, 2);
    let (out, offsets) = run(&mut iter, &items, 2, None);
    assert_eq!(out, vec![1, 0, 3, 2, 4]);
    assert_eq!(offsets, vec![2, 4]);
}

#[test]
fn exact_multiple_of_page_size() {
    let items: Vec<u32> = (10..14).collect();
    let mut iter = start(&items, 2);
    let (out, offsets) = run(&mut iter, &items, 2, None);
    assert_eq!(out, vec![11, 10, 13, 12]);
    assert_eq!(offsets, vec![2, 4]);
}

#[test]
fn empty_collection_ends_at_once() {
    let items: Vec<u32> = Vec::new();
    let mut iter = start(&items, 3);
    let (out, offsets) = run(&mut iter, &items, 3, None);
    assert!(out.is_empty());
    assert!(offsets.is_empty());
}

#[test]
fn offsets_advance_by_page_size() {
    let items: Vec<u32> = (0..10).collect();
    let mut iter = start(&items, 3);
    let (out, offsets) = run(&mut iter, &items, 3, None);
    assert_eq!(out.len(), 10);
    assert_eq!(offsets, vec![3, 6, 9]);
}

#[test]
fn page_comes_out_reversed() {
    let items = vec![40, 41, 42];
    let mut iter = start(&items, 3);
    assert!(matches!(iter.next(), Pull::Item(42)));
    assert!(matches!(iter.next(), Pull::Item(41)));
    assert!(matches!(iter.next(), Pull::Item(40)));
    match iter.next() {
        Pull::Fetch(req) => assert_eq!(query_value(&req, "startAt").as_deref(), Some("3")),
        _ => panic!("a full last page still asks for the next one"),
    }
}

#[test]
fn one_pull_makes_no_request() {
    let items: Vec<u32> = (0..9).collect();
    let mut iter = start(&items, 3);
    assert!(matches!(iter.next(), Pull::Item(2)));
}

#[test]
fn failed_second_page_ends_quietly() {
    let items: Vec<u32> = (0..6).collect();
    let mut iter = start(&items, 3);
    let (out, offsets) = run(&mut iter, &items, 3, Some(3));
    assert_eq!(out, vec![2, 1, 0]);
    assert_eq!(offsets, vec![3]);
    assert!(matches!(iter.next(), Pull::End));
    assert!(matches!(iter.next(), Pull::End));
}

#[test]
fn failed_first_page_starts_nothing() {
    let options = SearchOptions::new();
    let first: Result<Paginated<u32>, Error> = Err(Error::RequestFailed(String::from("401")));
    match Issues::new().iter(&board(), &options, first) {
        Err(Error::RequestFailed(msg)) => assert_eq!(msg, "401"),
        Ok(_) => panic!("a walk started from a failed fetch"),
    }
}

#[test]
fn next_request_keeps_other_criteria() {
    let items: Vec<u32> = (0..4).collect();
    let options = SearchOptions::new().set(Param::Jql, String::from("project = A")).max_results(2);
    let mut iter = IssuesIter::new(&board(), &options, Ok(served(&items, 0, 2))).ok().unwrap();
    iter.next();
    iter.next();
    match iter.next() {
        Pull::Fetch(req) => {
            assert_eq!(req.path, "/board/7/issue?jql=project+%3D+A&maxResults=2&startAt=2");
        }
        _ => panic!("expected a request"),
    }
}

#[test]
fn more_at_the_largest_offset() {
    let page: Paginated<u32> =
        Paginated { expand: String::new(), max_results: 1, start_at: u64::MAX, total: u64::MAX, values: Vec::new() };
    let mut iter = IssuesIter::new(&board(), &SearchOptions::new(), Ok(page)).ok().unwrap();
    assert!(!iter.more());
    assert!(matches!(iter.next(), Pull::End));
}

#[test]
fn more_when_next_page_starts_at_total() {
    let page: Paginated<u32> =
        Paginated { expand: String::new(), max_results: 5, start_at: 5, total: 10, values: Vec::new() };
    let iter = IssuesIter::new(&board(), &SearchOptions::new(), Ok(page)).ok().unwrap();
    assert!(iter.more());
}

#[test]
fn get_request_for_one_issue() {
    let req = Issues::new().get("X");
    assert_eq!(req.method, Method::Get);
    assert_eq!(req.api, "api");
    assert_eq!(req.path, "/issue/X");
}

#[test]
fn create_request_posts_to_issue() {
    let req = Issues::new().create();
    assert_eq!(req.method, Method::Post);
    assert_eq!(req.api, "api");
    assert_eq!(req.path, "/issue");
}

#[test]
fn list_request_without_options() {
    let req = Issues::new().list(&board(), &SearchOptions::new());
    assert_eq!(req.method, Method::Get);
    assert_eq!(req.api, "agile");
    assert_eq!(req.path, "/board/7/issue?");
}

#[test]
fn list_request_with_page() {
    let b = Board { id: 1203, name: String::new() };
    let req = Issues::new().list(&b, &SearchOptions::new().with_page(40, 20));
    assert_eq!(req.path, "/board/1203/issue?maxResults=20&startAt=40");
}

#[test]
fn serialize_encodes_values() {
    let options = SearchOptions::new()
        .set(Param::Jql, String::from("a&b=c d"))
        .set(Param::Fields, String::from("summary,status"));
    assert_eq!(options.serialize(), "jql=a%26b%3Dc+d&fields=summary%2Cstatus");
}

#[test]
fn serialize_empty_options() {
    assert_eq!(SearchOptions::new().serialize(), "");
}

#[test]
fn set_overwrites_in_place() {
    let options = SearchOptions::new().start_at(5).set(Param::Expand, String::from("names")).start_at(9);
    assert_eq!(options.serialize(), "startAt=9&expand=names");
}

#[test]
fn with_page_leaves_original_unchanged() {
    let options = SearchOptions::new().max_results(50);
    let paged = options.with_page(100, 25);
    assert_eq!(options.serialize(), "maxResults=50");
    assert_eq!(paged.serialize(), "maxResults=25&startAt=100");
}

#[test]
fn decimal_rendering() {
    assert_eq!(decimal_string(0), "0");
    assert_eq!(decimal_string(9), "9");
    assert_eq!(decimal_string(10), "10");
    assert_eq!(decimal_string(u64::MAX), "18446744073709551615");
}

#[test]
fn param_names_on_the_wire() {
    assert_eq!(Param::MaxResults.name(), "maxResults");
    assert_eq!(Param::StartAt.name(), "startAt");
    assert_eq!(Param::TypeName.name(), "type");
}
