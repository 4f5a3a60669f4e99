use std::collections::HashMap;
use std::path::PathBuf;

use githubstats::db::{Database, StoreError};
use githubstats::github::{DayStats, FetchError};
use githubstats::ingest::{ingest_repo, IngestError};
use githubstats::{CalDate, ChartGenerator, StatType};

fn memory_db() -> Database {
    match Database::new(&PathBuf::from(":memory:")) {
        Ok(db) => db,
        Err(_) => panic!("cannot open an in-memory database"),
    }
}

fn ds(y: i32, m: u32, d: u32, count: u64, uniques: u64) -> DayStats {
    DayStats { timestamp: CalDate::new(y, m, d), count, uniques }
}

fn window(db: &Database, owner: &str, repo: &str, now: CalDate, days: u32) -> Vec<(u32, u64, u64, u64, u64)> {
    match db.get_repo_stats(owner, repo, now, days) {
        Ok(v) => v
            .iter()
            .map(|r| (r.date.day, r.clones.count, r.clones.uniques, r.views.count, r.views.uniques))
            .collect(),
        Err(_) => panic!("query failed"),
    }
}

#[test]
fn upsert_twice_equals_once() {
    let days = vec![ds(2023, 3, 1, 5, 2), ds(2023, 3, 2, 7, 3), ds(2023, 3, 1, 6, 2)];
    let mut once = memory_db();
    assert!(once.update_traffic(StatType::Views, "o", "r", days.clone()).is_ok());
    let mut twice = memory_db();
    assert!(twice.update_traffic(StatType::Views, "o", "r", days.clone()).is_ok());
    assert!(twice.update_traffic(StatType::Views, "o", "r", days).is_ok());
    let now = CalDate::new(2023, 3, 5);
    let a = window(&once, "o", "r", now, 10);
    let b = window(&twice, "o", "r", now, 10);
    assert_eq!(a, b);
    assert_eq!(a, vec![(2, 0, 0, 7, 3), (1, 0, 0, 6, 2)]);
}

#[test]
fn views_then_clones_keep_both_facets() {
    let mut db = memory_db();
    assert!(db.update_traffic(StatType::Views, "o", "r", vec![ds(2023, 3, 1, 5, 3)]).is_ok());
    assert!(db.update_traffic(StatType::Clones, "o", "r", vec![ds(2023, 3, 1, 2, 1)]).is_ok());
    assert_eq!(window(&db, "o", "r", CalDate::new(2023, 3, 1), 3), vec![(1, 2, 1, 5, 3)]);
    // A later poll corrects the views; the clones stay.
    assert!(db.update_traffic(StatType::Views, "o", "r", vec![ds(2023, 3, 1, 9, 4)]).is_ok());
    assert_eq!(window(&db, "o", "r", CalDate::new(2023, 3, 1), 3), vec![(1, 2, 1, 9, 4)]);
}

#[test]
fn window_is_bounded_ordered_and_limited() {
    let mut db = memory_db();
    let days: Vec<DayStats> = (1..=20).map(|d| ds(2023, 4, d, d as u64, 1)).collect();
    assert!(db.update_traffic(StatType::Clones, "o", "r", days).is_ok());
    let w = window(&db, "o", "r", CalDate::new(2023, 4, 10), 3);
    assert_eq!(w.iter().map(|r| r.0).collect::<Vec<_>>(), vec![10, 9, 8]);
    let all = window(&db, "o", "r", CalDate::new(2023, 4, 10), 30);
    assert_eq!(all.len(), 10);
    assert_eq!(all[0].0, 10);
    assert_eq!(all[9].0, 1);
    assert!(window(&db, "o", "other", CalDate::new(2023, 4, 10), 30).is_empty());
}

#[test]
fn window_start_out_of_range_is_an_error() {
    let db = memory_db();
    let r = db.get_repo_stats("o", "r", CalDate::new(2023, 1, 1), u32::MAX);
    assert!(matches!(r, Err(StoreError::DateOutOfRange)));
    let bad = db.get_repo_stats("o", "r", CalDate::new(2023, 2, 30), 1);
    assert!(matches!(bad, Err(StoreError::DateOutOfRange)));
}

#[test]
fn repo_list_is_distinct_and_sorted() {
    let mut db = memory_db();
    assert!(db.update_traffic(StatType::Views, "zed", "a", vec![ds(2023, 1, 1, 1, 1)]).is_ok());
    assert!(db.update_traffic(StatType::Views, "amy", "tool", vec![ds(2023, 1, 1, 1, 1), ds(2023, 1, 2, 1, 1)]).is_ok());
    assert!(db.update_traffic(StatType::Clones, "amy", "lib", vec![ds(2023, 1, 1, 1, 1)]).is_ok());
    let list = match db.get_repo_list() {
        Ok(l) => l,
        Err(_) => panic!("list failed"),
    };
    let pairs: Vec<(String, String)> = list.into_iter().map(|r| (r.owner, r.name)).collect();
    assert_eq!(
        pairs,
        vec![
            (String::from("amy"), String::from("lib")),
            (String::from("amy"), String::from("tool")),
            (String::from("zed"), String::from("a")),
        ]
    );
}

#[test]
fn repo_exists_after_upsert_only() {
    let mut db = memory_db();
    assert!(matches!(db.repo_exists("o", "r"), Ok(false)));
    assert!(db.update_traffic(StatType::Clones, "o", "r", vec![ds(2023, 1, 1, 0, 0)]).is_ok());
    assert!(matches!(db.repo_exists("o", "r"), Ok(true)));
    assert!(matches!(db.repo_exists("o", "s"), Ok(false)));
}

#[test]
fn counts_past_sqlite_range_are_refused() {
    let mut db = memory_db();
    let days = vec![ds(2023, 1, 1, 3, 1), ds(2023, 1, 2, u64::MAX, 0), ds(2023, 1, 3, 4, 1)];
    let r = db.update_traffic(StatType::Views, "o", "r", days);
    assert!(matches!(r, Err(StoreError::Sql(_))));
    // The day before the failing one is stored; the failing one left no row.
    assert_eq!(window(&db, "o", "r", CalDate::new(2023, 1, 5), 10), vec![(1, 0, 0, 3, 1)]);
}

#[test]
fn empty_upsert_succeeds() {
    let mut db = memory_db();
    assert!(db.update_traffic(StatType::Clones, "o", "r", Vec::new()).is_ok());
    assert!(matches!(db.repo_exists("o", "r"), Ok(false)));
    assert!(ingest_repo(&mut db, "o", "r", Ok(Vec::new()), Ok(Vec::new())).is_ok());
}

#[test]
fn ingest_merges_both_facets() {
    let mut db = memory_db();
    let r = ingest_repo(&mut db, "o", "r", Ok(vec![ds(2023, 5, 2, 2, 1)]), Ok(vec![ds(2023, 5, 2, 5, 3)]));
    assert!(r.is_ok());
    assert_eq!(window(&db, "o", "r", CalDate::new(2023, 5, 2), 1), vec![(2, 2, 1, 5, 3)]);
}

#[test]
fn ingest_failure_merges_nothing() {
    let mut db = memory_db();
    let r = ingest_repo(&mut db, "o", "r", Ok(vec![ds(2023, 5, 2, 2, 1)]), Err(FetchError::Status(403)));
    assert!(matches!(r, Err(IngestError::Fetch(StatType::Views, FetchError::Status(403)))));
    assert!(matches!(db.repo_exists("o", "r"), Ok(false)));
    let r2 = ingest_repo(&mut db, "o", "r", Err(FetchError::Empty), Err(FetchError::Status(500)));
    assert!(matches!(r2, Err(IngestError::Fetch(StatType::Clones, FetchError::Empty))));
}

#[test]
fn dense_window_from_stored_rows() {
    let mut db = memory_db();
    let d = CalDate::new(2023, 6, 10);
    let rows = vec![ds(2023, 6, 9, 4, 2), ds(2023, 6, 7, 6, 3)];
    assert!(db.update_traffic(StatType::Views, "o", "r", rows).is_ok());
    let stats = match db.get_repo_stats("o", "r", d, 5) {
        Ok(s) => s,
        Err(_) => panic!("query failed"),
    };
    assert_eq!(stats.len(), 2);
    let mut names = HashMap::new();
    names.insert(0u8, String::from("Count"));
    let mut g = ChartGenerator::new(String::from("v"), PathBuf::from("v.svg"), names, 5);
    assert!(g.add_stats(&stats, StatType::Views).is_ok());
    let counts = g.series(0, d).unwrap();
    assert_eq!(counts, vec![(0, 0), (1, 4), (2, 0), (3, 6), (4, 0)]);
    let uniques = g.series(1, d).unwrap();
    assert_eq!(uniques, vec![(0, 0), (1, 2), (2, 0), (3, 3), (4, 0)]);
}
