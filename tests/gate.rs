use comic_harvest::aggregate::Aggregator;
use comic_harvest::gate::Gate;
use comic_harvest::record::ComicInfo;
use std::sync::{Arc, Mutex};

#[test]
fn gate_hands_out_at_most_its_permits() {
    let mut g = Gate::new(2);
    assert!(g.try_acquire());
    assert!(g.try_acquire());
    assert!(!g.try_acquire());
    assert_eq!(g.in_flight, 2);
    assert!(g.release());
    assert!(g.try_acquire());
    assert_eq!(g.peak, 2);
    assert!(g.release());
    assert!(g.release());
    assert!(!g.release());
    assert_eq!(g.in_flight, 0);
}

fn concurrent_appends(m: usize) {
    let agg = Arc::new(Mutex::new(Aggregator::new()));
    let rt = tokio::runtime::Builder::new_multi_thread().worker_threads(4).build().unwrap();
    rt.block_on(async {
        let mut handles = Vec::new();
        for i in 0..m {
            let agg = Arc::clone(&agg);
            handles.push(tokio::spawn(async move {
                let mut r = ComicInfo::new();
                r.id = Some(i.to_string());
                agg.lock().unwrap().append(r);
            }));
        }
        for h in handles {
            h.await.unwrap();
        }
    });
    let agg = agg.lock().unwrap();
    assert_eq!(agg.len(), m);
    let mut ids: Vec<usize> =
        agg.snapshot().iter().map(|r| r.id.as_ref().unwrap().parse().unwrap()).collect();
    ids.sort();
    assert_eq!(ids, (0..m).collect::<Vec<usize>>());
}

#[test]
fn concurrent_appends_one() {
    concurrent_appends(1);
}

#[test]
fn concurrent_appends_ten() {
    concurrent_appends(10);
}

#[test]
fn concurrent_appends_thousand() {
    concurrent_appends(1000);
}

#[test]
fn aggregator_keeps_append_order() {
    let mut a = Aggregator::new();
    let mut r = ComicInfo::new();
    r.id = Some("1".to_string());
    a.append(r);
    let mut r = ComicInfo::new();
    r.id = Some("2".to_string());
    a.append(r);
    let v = a.into_records();
    assert_eq!(v[0].id.as_deref(), Some("1"));
    assert_eq!(v[1].id.as_deref(), Some("2"));
}
