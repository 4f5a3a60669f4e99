//! Merging the fetched traffic of one repository into the store.
use vstd::prelude::*;

use crate::db::{upsert_all, Database, StoreError};
use crate::github::{DayStats, FetchError};
use crate::StatType;

verus! {

/// Why the traffic of a repository was not merged.
pub enum IngestError {
    /// Fetching the facet failed.
    Fetch(StatType, FetchError),
    /// Storing the facet failed.
    Store(StatType, StoreError),
}

/// Merges the outcome of fetching both facets of a repository. Both fetches
/// have been tried; if either failed, the first failure (clones before views)
/// is returned and nothing is merged. Otherwise the clone days, then the view
/// days, are upserted.
pub fn ingest_repo(
    db: &mut Database,
    owner: &str,
    repo: &str,
    clones: Result<Vec<DayStats>, FetchError>,
    views: Result<Vec<DayStats>, FetchError>,
) -> (r: Result<(), IngestError>)
    ensures
        clones matches Err(e) ==> r == Err::<(), IngestError>(IngestError::Fetch(StatType::Clones, e))
            && final(db).table() == old(db).table(),
        clones is Ok ==> (views matches Err(e) ==> r == Err::<(), IngestError>(
            IngestError::Fetch(StatType::Views, e),
        ) && final(db).table() == old(db).table()),
        clones matches Ok(c) ==> (views matches Ok(v) ==> (c@.len() == 0 && v@.len() == 0 ==> r is Ok)),
        r matches Err(IngestError::Store(_, e)) ==> e is Sql,
        r matches Err(IngestError::Store(StatType::Clones, _)) ==> clones is Ok && exists|n: int|
            0 <= n < clones->Ok_0@.len() && final(db).table() == upsert_all(
                old(db).table(),
                StatType::Clones,
                owner@,
                repo@,
                #[trigger] clones->Ok_0@.subrange(0, n),
            ),
        r matches Err(IngestError::Store(StatType::Views, _)) ==> clones is Ok && views is Ok
            && exists|n: int|
            0 <= n < views->Ok_0@.len() && final(db).table() == upsert_all(
                upsert_all(old(db).table(), StatType::Clones, owner@, repo@, clones->Ok_0@),
                StatType::Views,
                owner@,
                repo@,
                #[trigger] views->Ok_0@.subrange(0, n),
            ),
        r is Ok ==> clones is Ok && views is Ok && final(db).table() == upsert_all(
            upsert_all(old(db).table(), StatType::Clones, owner@, repo@, clones->Ok_0@),
            StatType::Views,
            owner@,
            repo@,
            views->Ok_0@,
        ),
{
    let c = match clones {
        Err(e) => return Err(IngestError::Fetch(StatType::Clones, e)),
        Ok(c) => c,
    };
    let v = match views {
        Err(e) => return Err(IngestError::Fetch(StatType::Views, e)),
        Ok(v) => v,
    };
    if let Err(e) = db.update_traffic(StatType::Clones, owner, repo, c) {
        return Err(IngestError::Store(StatType::Clones, e));
    }
    if let Err(e) = db.update_traffic(StatType::Views, owner, repo, v) {
        return Err(IngestError::Store(StatType::Views, e));
    }
    Ok(())
}

} // verus!
