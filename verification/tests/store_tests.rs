use certwatch::record::CertificateRecord;
use certwatch::store::RecordStore;
use certwatch::timestamp::UtcInstant;

fn instant(year: u32, month: u32, day: u32, hour: u32, minute: u32, second: u32) -> UtcInstant {
    UtcInstant { year, month, day, hour, minute, second }
}

fn record(name: &str, from: UtcInstant, to: UtcInstant, updated: UtcInstant) -> CertificateRecord {
    CertificateRecord { name: name.to_string(), valid_from: from, valid_to: to, updated }
}

#[test]
fn upsert_inserts_then_lists() {
    let mut store = RecordStore::new();
    let from = instant(2025, 1, 1, 0, 0, 0);
    let to = instant(2025, 6, 1, 0, 0, 0);
    let now = instant(2025, 3, 1, 12, 0, 0);
    store.upsert(record("a.example", from, to, now));
    assert_eq!(store.len(), 1);
    let all = store.list_all();
    assert_eq!(all.len(), 1);
    assert_eq!(all[0].name, "a.example");
    assert_eq!(all[0].valid_from, from);
    assert_eq!(all[0].valid_to, to);
    assert_eq!(all[0].updated, now);
}

#[test]
fn upsert_same_record_twice_is_idempotent() {
    let mut store = RecordStore::new();
    let from = instant(2025, 1, 1, 0, 0, 0);
    let to = instant(2025, 6, 1, 0, 0, 0);
    let now = instant(2025, 3, 1, 12, 0, 0);
    store.upsert(record("a.example", from, to, now));
    store.upsert(record("a.example", from, to, now));
    assert_eq!(store.len(), 1);
    let all = store.list_all();
    assert_eq!(all.len(), 1);
    assert_eq!(all[0].name, "a.example");
    assert_eq!(all[0].valid_from, from);
    assert_eq!(all[0].valid_to, to);
    assert_eq!(all[0].updated, now);
}

#[test]
fn upsert_overwrites_content_for_same_name() {
    let mut store = RecordStore::new();
    let from1 = instant(2025, 1, 1, 0, 0, 0);
    let to1 = instant(2025, 6, 1, 0, 0, 0);
    let now1 = instant(2025, 2, 1, 0, 0, 0);
    let from2 = instant(2025, 5, 1, 0, 0, 0);
    let to2 = instant(2026, 5, 1, 0, 0, 0);
    let now2 = instant(2025, 8, 1, 0, 0, 0);
    store.upsert(record("a.example", from1, to1, now1));
    store.upsert(record("a.example", from2, to2, now2));
    assert_eq!(store.len(), 1);
    let all = store.list_all();
    assert_eq!(all[0].valid_from, from2);
    assert_eq!(all[0].valid_to, to2);
    assert_eq!(all[0].updated, now2);
}

#[test]
fn three_records_unique_names() {
    let mut store = RecordStore::new();
    let from = instant(2025, 1, 1, 0, 0, 0);
    let to = instant(2025, 6, 1, 0, 0, 0);
    let now = instant(2025, 3, 1, 12, 0, 0);
    let later = instant(2025, 4, 1, 12, 0, 0);
    store.upsert(record("a.example", from, to, now));
    store.upsert(record("b.example", from, to, now));
    store.upsert(record("c.example", from, to, now));
    store.upsert(record("b.example", from, to, later));
    store.upsert(record("a.example", from, to, later));
    let all = store.list_all();
    assert_eq!(all.len(), 3);
    for i in 0..all.len() {
        for j in 0..all.len() {
            if i != j {
                assert_ne!(all[i].name, all[j].name);
            }
        }
    }
    assert_eq!(all[0].name, "a.example");
    assert_eq!(all[1].name, "b.example");
    assert_eq!(all[2].name, "c.example");
    assert_eq!(all[0].updated, later);
    assert_eq!(all[1].updated, later);
    assert_eq!(all[2].updated, now);
}

#[test]
fn upsert_all_applies_batch_in_order() {
    let mut store = RecordStore::new();
    let from = instant(2025, 1, 1, 0, 0, 0);
    let to = instant(2025, 6, 1, 0, 0, 0);
    let now1 = instant(2025, 2, 1, 0, 0, 0);
    let now2 = instant(2025, 2, 1, 0, 0, 1);
    let batch = vec![
        record("a.example", from, to, now1),
        record("b.example", from, to, now1),
        record("a.example", from, to, now2),
    ];
    store.upsert_all(batch);
    let all = store.list_all();
    assert_eq!(all.len(), 2);
    assert_eq!(all[0].name, "a.example");
    // the later write for the same name wins
    assert_eq!(all[0].updated, now2);
    assert_eq!(all[1].name, "b.example");
    assert_eq!(all[1].updated, now1);
}
