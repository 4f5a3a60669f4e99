use std::collections::HashMap;
use std::path::PathBuf;

use githubstats::chart::{axis_top, stat_points};
use githubstats::{CalDate, ChartGenerator, RepoStats, StatType, Stats};

fn names() -> HashMap<u8, String> {
    let mut m = HashMap::new();
    m.insert(0, String::from("Count"));
    m.insert(1, String::from("Unique"));
    m
}

fn points(count: u64, uniques: u64) -> HashMap<u8, u64> {
    let mut m = HashMap::new();
    m.insert(0, count);
    m.insert(1, uniques);
    m
}

fn day(y: i32, m: u32, d: u32) -> CalDate {
    CalDate::new(y, m, d)
}

#[test]
fn dense_window_fills_gaps_with_zero() {
    let mut g = ChartGenerator::new(String::from("t"), PathBuf::from("x.svg"), names(), 5);
    let today = day(2023, 3, 10);
    g.add(day(2023, 3, 9), points(4, 2));
    g.add(day(2023, 3, 7), points(6, 3));
    let s = g.series(0, today).unwrap();
    assert_eq!(s, vec![(0, 0), (1, 4), (2, 0), (3, 6), (4, 0)]);
    let u = g.series(1, today).unwrap();
    assert_eq!(u, vec![(0, 0), (1, 2), (2, 0), (3, 3), (4, 0)]);
    let none = g.series(7, today).unwrap();
    assert_eq!(none, vec![(0, 0), (1, 0), (2, 0), (3, 0), (4, 0)]);
}

#[test]
fn series_walks_back_over_month_end() {
    let mut g = ChartGenerator::new(String::from("t"), PathBuf::from("x.svg"), names(), 3);
    g.add(day(2023, 2, 28), points(9, 1));
    assert_eq!(g.series(0, day(2023, 3, 1)).unwrap(), vec![(0, 0), (1, 9), (2, 0)]);
    assert!(g.series(0, day(2023, 2, 30)).is_none());
}

#[test]
fn later_add_replaces_a_day_and_totals_accumulate() {
    let mut g = ChartGenerator::new(String::from("t"), PathBuf::from("x.svg"), names(), 2);
    g.add(day(2023, 3, 10), points(1, 1));
    g.add(day(2023, 3, 10), points(5, 2));
    assert_eq!(g.value_for(day(2023, 3, 10), 0), 5);
    assert_eq!(g.value_for(day(2023, 3, 11), 0), 0);
    assert_eq!(g.legend(0), "Count (6)");
    assert_eq!(g.legend(1), "Unique (3)");
    assert_eq!(g.legend(2), "?");
}

#[test]
fn peak_is_at_least_ten_and_ignores_replaced_points() {
    let mut g = ChartGenerator::new(String::from("t"), PathBuf::from("x.svg"), names(), 2);
    assert_eq!(g.max_y(), 10);
    g.add(day(2023, 3, 10), points(3, 1));
    assert_eq!(g.max_y(), 10);
    g.add(day(2023, 3, 9), points(42, 17));
    assert_eq!(g.max_y(), 42);
    g.add(day(2023, 3, 9), points(12, 1));
    assert_eq!(g.max_y(), 12);
}

#[test]
fn axis_top_rounds_up_to_ten() {
    assert_eq!(axis_top(10), 10);
    assert_eq!(axis_top(11), 20);
    assert_eq!(axis_top(42), 50);
    assert_eq!(axis_top(u64::MAX - 9), 18446744073709551610);
}

#[test]
fn totals_overflow_is_refused() {
    let mut g = ChartGenerator::new(String::from("t"), PathBuf::from("x.svg"), names(), 2);
    g.add(day(2023, 3, 10), points(u64::MAX, 0));
    assert!(!g.can_add(&points(1, 0)));
    assert!(g.can_add(&points(0, 5)));
}

#[test]
fn stored_days_fill_the_chart() {
    let stats = vec![
        RepoStats {
            date: day(2023, 3, 10),
            views: Stats { count: 8, uniques: 4 },
            clones: Stats { count: 2, uniques: 1 },
        },
        RepoStats {
            date: day(2023, 3, 8),
            views: Stats { count: 6, uniques: 3 },
            clones: Stats { count: 0, uniques: 0 },
        },
    ];
    let mut g = ChartGenerator::new(String::from("Views"), PathBuf::from("v.svg"), names(), 3);
    assert!(g.add_stats(&stats, StatType::Views).is_ok());
    assert_eq!(g.series(0, day(2023, 3, 10)).unwrap(), vec![(0, 8), (1, 0), (2, 6)]);
    assert_eq!(g.legend(0), "Count (14)");
    assert_eq!(g.legend(1), "Unique (7)");
    let p = stat_points(&stats[0], StatType::Clones);
    assert_eq!(p.get(&0), Some(&2));
    assert_eq!(p.get(&1), Some(&1));
    assert_eq!(p.len(), 2);

    let mut big = ChartGenerator::new(String::from("C"), PathBuf::from("c.svg"), names(), 3);
    big.add(day(2000, 1, 1), points(u64::MAX, 0));
    assert_eq!(big.add_stats(&stats, StatType::Clones), Err(0));
}

#[test]
fn reset_forgets_points() {
    let mut g = ChartGenerator::new(String::from("t"), PathBuf::from("x.svg"), names(), 2);
    g.add(day(2023, 3, 10), points(30, 1));
    g.reset();
    assert_eq!(g.max_y(), 10);
    assert_eq!(g.legend(0), "Count (0)");
    assert_eq!(g.title(), "t");
    assert_eq!(g.days(), 2);
    assert_eq!((g.width(), g.height()), (640, 480));
    assert_eq!(g.filename(), &PathBuf::from("x.svg"));
}
