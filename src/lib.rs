//! Traffic statistics poller for hosted repositories: a rate-limited,
//! cache-aware fetcher, an idempotent daily time-series store, and the
//! dense day-by-day series handed to a chart renderer.
use vstd::prelude::*;

pub mod cache;
pub mod chart;
pub mod date;
pub mod db;
pub mod github;
pub mod ingest;
pub mod links;
pub mod text;

pub use chart::ChartGenerator;
pub use date::CalDate;

verus! {

/// The two traffic facets that are tracked.
#[derive(Clone, Copy, Debug, PartialEq, Eq, Structural)]
pub enum StatType {
    Clones,
    Views,
}

/// The word that names a traffic facet in request paths and file names.
pub open spec fn stat_word(t: StatType) -> Seq<char> {
    match t {
        StatType::Clones => "clones"@,
        StatType::Views => "views"@,
    }
}

impl StatType {
    pub fn word(&self) -> (r: &'static str)
        ensures
            r@ == stat_word(*self),
    {
        match self {
            StatType::Clones => "clones",
            StatType::Views => "views",
        }
    }
}

/// A repository, identified by its owner and its name.
pub struct Repo {
    pub owner: String,
    pub name: String,
}

/// The two counters of one traffic facet on one day.
#[derive(Clone, Copy, Debug, PartialEq, Eq, Structural)]
pub struct Stats {
    pub count: u64,
    pub uniques: u64,
}

/// One stored day of a repository's traffic.
#[derive(Clone, Copy, Debug, PartialEq, Eq, Structural)]
pub struct RepoStats {
    pub date: CalDate,
    pub views: Stats,
    pub clones: Stats,
}

impl RepoStats {
    /// The counters of facet `t`.
    pub open spec fn facet(self, t: StatType) -> Stats {
        match t {
            StatType::Clones => self.clones,
            StatType::Views => self.views,
        }
    }
}

} // verus!
