//! The pagination stream: order, termination, failure.

use fhir_sdk::error::Error;
use fhir_sdk::paging::{collect_pages, Page, Paginator, PollStep};

fn page(items: &[&str], next: Option<&str>) -> Page<String> {
    Page {
        items: items.iter().map(|s| (*s).to_owned()).collect(),
        next: next.map(|s| s.to_owned()),
    }
}

#[test]
fn a_single_page_yields_exactly_its_items_then_ends() {
    let items = collect_pages(page(&["a", "b", "c"], None), Vec::new());
    assert_eq!(items, vec!["a".to_owned(), "b".to_owned(), "c".to_owned()]);
}

#[test]
fn an_empty_page_without_a_next_link_yields_nothing() {
    let items = collect_pages(page(&[], None), Vec::new());
    assert_eq!(items, Vec::<String>::new());
}

#[test]
fn chained_pages_yield_all_items_in_page_order() {
    let first = page(&["a", "b"], Some("http://s/page2"));
    let rest = vec![
        page(&["c"], Some("http://s/page3")),
        page(&[], Some("http://s/page4")),
        page(&["d", "e"], None),
    ];
    let items = collect_pages(first, rest);
    let expected: Vec<String> =
        ["a", "b", "c", "d", "e"].iter().map(|s| (*s).to_owned()).collect();
    assert_eq!(items, expected);
}

#[test]
fn the_stream_fetches_only_when_the_current_page_is_exhausted() {
    let mut pager = Paginator::new(page(&["a"], Some("http://s/page2")));
    assert!(matches!(pager.poll(), PollStep::Item(ref s) if s == "a"));
    match pager.poll() {
        PollStep::Fetch(url) => assert_eq!(url, "http://s/page2"),
        other => panic!("expected a fetch request, got {other:?}"),
    }
    pager.supply_page(page(&["b"], None));
    assert!(matches!(pager.poll(), PollStep::Item(ref s) if s == "b"));
    assert!(matches!(pager.poll(), PollStep::End));
    assert!(matches!(pager.poll(), PollStep::End));
}

#[test]
fn a_fetch_failure_ends_the_stream_with_that_error() {
    let mut pager = Paginator::new(page(&[], Some("http://s/page2")));
    assert!(matches!(pager.poll(), PollStep::Fetch(_)));
    pager.record_failure(Error::Transport("connection reset".to_owned()));
    match pager.poll() {
        PollStep::Failed(Error::Transport(m)) => assert_eq!(m, "connection reset"),
        other => panic!("expected the recorded failure, got {other:?}"),
    }
    assert!(matches!(pager.poll(), PollStep::End));
}
