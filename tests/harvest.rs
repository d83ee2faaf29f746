use comic_harvest::harvest::{Action, Harvest, Phase};
use comic_harvest::record::{Comic, ComicInfo, LambdaResponse, PublisherResponse};

fn comic(name: &str, url: &str) -> Comic {
    Comic { name: name.to_string(), url: url.to_string() }
}

fn urls(items: &[&str]) -> LambdaResponse {
    LambdaResponse { urls: items.iter().map(|s| s.to_string()).collect() }
}

fn named(name: &str) -> ComicInfo {
    let mut r = ComicInfo::new();
    r.name = Some(name.to_string());
    r
}

fn fetch_of(a: &Action) -> (usize, String, String) {
    match a {
        Action::FetchDetail { task, url, body } => (*task, url.clone(), body.clone()),
        other => panic!("expected a fetch, got {:?}", other),
    }
}

#[test]
fn start_asks_for_the_named_set() {
    let h = Harvest::new(4);
    match h.start("valiant") {
        Action::ListCollections { body } => assert_eq!(body, "{\"name\":\"valiant\"}"),
        other => panic!("unexpected {:?}", other),
    }
    assert_eq!(h.phase, Phase::FetchingCollections);
}

#[test]
fn end_to_end_one_record_one_failure() {
    let mut h = Harvest::new(4);
    let a = h.collections_listed(PublisherResponse { comics: vec![comic("A", "u1")] });
    assert_eq!(a.len(), 1);
    match &a[0] {
        Action::ListItems { index, body } => {
            assert_eq!(*index, 0);
            assert_eq!(body, "{\"url\":\"u1\"}");
        }
        other => panic!("unexpected {:?}", other),
    }
    let a = h.items_listed(urls(&["i1", "i2"]));
    assert_eq!(a.len(), 2);
    assert_eq!(fetch_of(&a[0]), (0, "i1".to_string(), "{\"url\":\"i1\"}".to_string()));
    assert_eq!(fetch_of(&a[1]), (1, "i2".to_string(), "{\"url\":\"i2\"}".to_string()));
    assert_eq!(h.phase, Phase::Draining);
    let a = h.detail_fetched(named("Rec1"));
    assert!(a.is_empty());
    assert!(!h.is_reporting());
    let a = h.detail_failed();
    assert_eq!(a.len(), 1);
    assert!(matches!(a[0], Action::Report));
    assert_eq!(h.failed, 1);
    let report = h.into_report().expect("report is due");
    assert_eq!(report.len(), 1);
    assert_eq!(report[0].name.as_deref(), Some("Rec1"));
}

#[test]
fn every_item_of_every_collection_is_collected() {
    let mut h = Harvest::new(100);
    h.collections_listed(PublisherResponse { comics: vec![comic("A", "u1"), comic("B", "u2")] });
    let first = h.items_listed(urls(&["a1", "a2", "a3"]));
    assert_eq!(first.len(), 4);
    assert!(matches!(first[3], Action::ListItems { index: 1, .. }));
    let second = h.items_listed(urls(&["b1", "b2"]));
    assert_eq!(second.len(), 2);
    assert_eq!(h.dispatched, 5);
    for i in 0..5 {
        let a = h.detail_fetched(named(&format!("r{}", i)));
        if i < 4 {
            assert!(a.is_empty());
        } else {
            assert!(matches!(a[0], Action::Report));
        }
    }
    let report = h.into_report().unwrap();
    assert_eq!(report.len(), 5);
}

#[test]
fn gate_bounds_fetches_in_flight() {
    let mut h = Harvest::new(2);
    h.collections_listed(PublisherResponse { comics: vec![comic("A", "u1")] });
    let a = h.items_listed(urls(&["i1", "i2", "i3", "i4", "i5"]));
    assert_eq!(a.len(), 2);
    assert_eq!(h.gate.in_flight, 2);
    assert_eq!(h.waiting.len(), 3);
    let a = h.detail_fetched(named("x"));
    assert_eq!(a.len(), 1);
    assert_eq!(fetch_of(&a[0]).0, 2);
    assert_eq!(fetch_of(&a[0]).1, "i3");
    let a = h.detail_failed();
    assert_eq!(fetch_of(&a[0]).1, "i4");
    let a = h.detail_fetched(named("y"));
    assert_eq!(fetch_of(&a[0]).1, "i5");
    assert!(h.detail_fetched(named("z")).is_empty());
    let a = h.detail_fetched(named("w"));
    assert!(matches!(a[0], Action::Report));
    assert!(h.gate.peak <= 2);
    assert_eq!(h.gate.peak, 2);
    assert_eq!(h.into_report().unwrap().len(), 4);
}

#[test]
fn report_waits_for_the_slowest_fetch() {
    let mut h = Harvest::new(8);
    h.collections_listed(PublisherResponse { comics: vec![comic("A", "u1")] });
    h.items_listed(urls(&["fast", "slow"]));
    h.detail_fetched(named("fast"));
    assert_eq!(h.phase, Phase::Draining);
    assert!(!h.is_reporting());
    assert!(h.into_report().is_none());
}

#[test]
fn slow_fetch_record_is_in_the_report() {
    let mut h = Harvest::new(8);
    h.collections_listed(PublisherResponse { comics: vec![comic("A", "u1")] });
    h.items_listed(urls(&["fast", "slow"]));
    assert!(h.detail_fetched(named("fast")).is_empty());
    let a = h.detail_fetched(named("slow"));
    assert!(matches!(a[0], Action::Report));
    let names: Vec<String> =
        h.into_report().unwrap().into_iter().map(|r| r.name.unwrap()).collect();
    assert_eq!(names, vec!["fast".to_string(), "slow".to_string()]);
}

#[test]
fn fetches_settled_during_expansion_do_not_report_early() {
    let mut h = Harvest::new(8);
    h.collections_listed(PublisherResponse { comics: vec![comic("A", "u1"), comic("B", "u2")] });
    h.items_listed(urls(&["a1"]));
    let a = h.detail_fetched(named("a1"));
    assert!(a.is_empty());
    assert_eq!(h.phase, Phase::Expanding);
    let a = h.items_listed(urls(&[]));
    assert_eq!(a.len(), 1);
    assert!(matches!(a[0], Action::Report));
    assert_eq!(h.into_report().unwrap().len(), 1);
}

#[test]
fn empty_collection_list_reports_at_once() {
    let mut h = Harvest::new(1);
    let a = h.collections_listed(PublisherResponse { comics: vec![] });
    assert_eq!(a.len(), 1);
    assert!(matches!(a[0], Action::Report));
    assert_eq!(h.into_report().unwrap().len(), 0);
}

#[test]
fn failed_discovery_aborts() {
    let mut h = Harvest::new(1);
    let a = h.collections_failed();
    assert!(matches!(a[0], Action::Abort));
    assert_eq!(h.phase, Phase::Aborted);
    assert!(h.into_report().is_none());
}

#[test]
fn failed_expansion_aborts() {
    let mut h = Harvest::new(1);
    h.collections_listed(PublisherResponse { comics: vec![comic("A", "u1")] });
    let a = h.items_failed();
    assert_eq!(a.len(), 1);
    assert!(matches!(a[0], Action::Abort));
    assert_eq!(h.phase, Phase::Aborted);
}

#[test]
fn outcomes_out_of_phase_are_ignored() {
    let mut h = Harvest::new(1);
    assert!(h.detail_fetched(named("x")).is_empty());
    assert!(h.detail_failed().is_empty());
    assert!(h.items_listed(urls(&["i"])).is_empty());
    assert!(h.items_failed().is_empty());
    assert_eq!(h.phase, Phase::FetchingCollections);
    assert_eq!(h.results.len(), 0);
    h.collections_listed(PublisherResponse { comics: vec![comic("A", "u1")] });
    assert!(h.collections_listed(PublisherResponse { comics: vec![] }).is_empty());
    assert!(h.collections_failed().is_empty());
    assert_eq!(h.phase, Phase::Expanding);
}
