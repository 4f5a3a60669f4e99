//! The time-series store: one row of four counters per (day, owner,
//! repository) in an SQLite table, filled by idempotent upserts.
use rusqlite::Connection;
use std::path::PathBuf;
use vstd::prelude::*;

use crate::date::{sub_days_spec, CalDate};
use crate::github::DayStats;
use crate::{Repo, RepoStats, StatType, Stats};

verus! {

#[verifier::external_type_specification]
#[verifier::external_body]
pub struct ExConnection(rusqlite::Connection);

#[verifier::external_type_specification]
#[verifier::external_body]
pub struct ExSqlError(rusqlite::Error);

/// The rows of the traffic table of a connection, each column holding a value
/// of its declared type: (year, month, day, owner, repository) to (clone
/// count, clone uniques, view count, view uniques). The store is the only
/// writer of its database file: no other connection changes the table while
/// one is open.
pub uninterp spec fn traffic_table(c: Connection) -> Map<
    (int, int, int, Seq<char>, Seq<char>),
    (int, int, int, int),
>;

/// Why a store operation failed.
pub enum StoreError {
    /// The database refused or failed the statement.
    Sql(rusqlite::Error),
    /// The first day of the window is out of the calendar's range.
    DateOutOfRange,
}

pub open spec fn ymd_lt(a: (int, int, int), b: (int, int, int)) -> bool {
    a.0 < b.0 || (a.0 == b.0 && (a.1 < b.1 || (a.1 == b.1 && a.2 < b.2)))
}

pub open spec fn ymd_of(d: CalDate) -> (int, int, int) {
    (d.year as int, d.month as int, d.day as int)
}

pub open spec fn key_ymd(k: (int, int, int, Seq<char>, Seq<char>)) -> (int, int, int) {
    (k.0, k.1, k.2)
}

/// Lexicographic order on character sequences, which is the order of their
/// UTF-8 encodings.
pub open spec fn text_lt(a: Seq<char>, b: Seq<char>) -> bool {
    exists|i: int|
        0 <= i <= a.len() && i < b.len() && #[trigger] a.subrange(0, i) == b.subrange(0, i) && (i
            == a.len() || (a[i] as u32) < (b[i] as u32))
}

pub open spec fn pair_lt(a: (Seq<char>, Seq<char>), b: (Seq<char>, Seq<char>)) -> bool {
    text_lt(a.0, b.0) || (a.0 == b.0 && text_lt(a.1, b.1))
}

/// The key of the row of day `d` of a repository.
pub open spec fn day_key(d: DayStats, owner: Seq<char>, repo: Seq<char>) -> (
    int,
    int,
    int,
    Seq<char>,
    Seq<char>,
) {
    (d.timestamp.year as int, d.timestamp.month as int, d.timestamp.day as int, owner, repo)
}

/// The counters of a row, zero where there is no row.
pub open spec fn counters_or_zero(
    t: Map<(int, int, int, Seq<char>, Seq<char>), (int, int, int, int)>,
    k: (int, int, int, Seq<char>, Seq<char>),
) -> (int, int, int, int) {
    if t.contains_key(k) {
        t[k]
    } else {
        (0, 0, 0, 0)
    }
}

/// Counters `c` with the two of facet `kind` set to `count` and `uniques`.
pub open spec fn with_facet(c: (int, int, int, int), kind: StatType, count: int, uniques: int) -> (
    int,
    int,
    int,
    int,
) {
    match kind {
        StatType::Clones => (count, uniques, c.2, c.3),
        StatType::Views => (c.0, c.1, count, uniques),
    }
}

/// The table after the upsert of day `d`: its row exists, and the two counters
/// of facet `kind` hold the day's values.
pub open spec fn upsert_day(
    t: Map<(int, int, int, Seq<char>, Seq<char>), (int, int, int, int)>,
    kind: StatType,
    owner: Seq<char>,
    repo: Seq<char>,
    d: DayStats,
) -> Map<(int, int, int, Seq<char>, Seq<char>), (int, int, int, int)> {
    let k = day_key(d, owner, repo);
    t.insert(k, with_facet(counters_or_zero(t, k), kind, d.count as int, d.uniques as int))
}

/// The table after the upsert of each of `days` in turn.
pub open spec fn upsert_all(
    t: Map<(int, int, int, Seq<char>, Seq<char>), (int, int, int, int)>,
    kind: StatType,
    owner: Seq<char>,
    repo: Seq<char>,
    days: Seq<DayStats>,
) -> Map<(int, int, int, Seq<char>, Seq<char>), (int, int, int, int)>
    decreases days.len(),
{
    if days.len() == 0 {
        t
    } else {
        upsert_day(upsert_all(t, kind, owner, repo, days.drop_last()), kind, owner, repo, days.last())
    }
}

/// Whether key `k` is a day of the repository within `[from, to]`.
pub open spec fn in_window(
    k: (int, int, int, Seq<char>, Seq<char>),
    owner: Seq<char>,
    repo: Seq<char>,
    from: CalDate,
    to: CalDate,
) -> bool {
    &&& k.3 == owner
    &&& k.4 == repo
    &&& !ymd_lt(key_ymd(k), ymd_of(from))
    &&& !ymd_lt(ymd_of(to), key_ymd(k))
}

/// The key of a returned row of the repository.
pub open spec fn row_key(r: RepoStats, owner: Seq<char>, repo: Seq<char>) -> (
    int,
    int,
    int,
    Seq<char>,
    Seq<char>,
) {
    (r.date.year as int, r.date.month as int, r.date.day as int, owner, repo)
}

/// `rows` are the most recent `limit` rows of the repository within
/// `[from, to]`, most recent first.
pub open spec fn is_window(
    t: Map<(int, int, int, Seq<char>, Seq<char>), (int, int, int, int)>,
    owner: Seq<char>,
    repo: Seq<char>,
    from: CalDate,
    to: CalDate,
    limit: int,
    rows: Seq<RepoStats>,
) -> bool {
    &&& rows.len() <= limit
    &&& forall|i: int|
        0 <= i < rows.len() ==> {
            let k = row_key(#[trigger] rows[i], owner, repo);
            &&& t.contains_key(k)
            &&& in_window(k, owner, repo, from, to)
            &&& t[k] == (
                rows[i].clones.count as int,
                rows[i].clones.uniques as int,
                rows[i].views.count as int,
                rows[i].views.uniques as int,
            )
        }
    &&& forall|i: int, j: int|
        0 <= i < j < rows.len() ==> ymd_lt(ymd_of(#[trigger] rows[j].date), ymd_of(
            #[trigger] rows[i].date,
        ))
    &&& forall|k: (int, int, int, Seq<char>, Seq<char>)|
        #[trigger] t.contains_key(k) && in_window(k, owner, repo, from, to) && (rows.len() < limit
            || (rows.len() > 0 && ymd_lt(ymd_of(rows.last().date), key_ymd(k)))) ==> exists|i: int|
            0 <= i < rows.len() && row_key(#[trigger] rows[i], owner, repo) == k
}

/// `pairs` are the distinct (owner, repository) pairs of the table, in order.
pub open spec fn is_repo_list(
    t: Map<(int, int, int, Seq<char>, Seq<char>), (int, int, int, int)>,
    pairs: Seq<(Seq<char>, Seq<char>)>,
) -> bool {
    &&& forall|i: int, j: int|
        0 <= i < j < pairs.len() ==> pair_lt(#[trigger] pairs[i], #[trigger] pairs[j])
    &&& forall|i: int|
        0 <= i < pairs.len() ==> exists|k: (int, int, int, Seq<char>, Seq<char>)|
            #[trigger] t.contains_key(k) && k.3 == (#[trigger] pairs[i]).0 && k.4 == pairs[i].1
    &&& forall|k: (int, int, int, Seq<char>, Seq<char>)|
        #[trigger] t.contains_key(k) ==> exists|i: int|
            0 <= i < pairs.len() && #[trigger] pairs[i] == (k.3, k.4)
}

/// Whether the table holds a row of the repository.
pub open spec fn has_repo(
    t: Map<(int, int, int, Seq<char>, Seq<char>), (int, int, int, int)>,
    owner: Seq<char>,
    repo: Seq<char>,
) -> bool {
    exists|k: (int, int, int, Seq<char>, Seq<char>)| #[trigger]
        t.contains_key(k) && k.3 == owner && k.4 == repo
}

/// The last of `days` whose row is `k`.
pub open spec fn last_on(
    days: Seq<DayStats>,
    owner: Seq<char>,
    repo: Seq<char>,
    k: (int, int, int, Seq<char>, Seq<char>),
) -> Option<DayStats>
    decreases days.len(),
{
    if days.len() == 0 {
        None
    } else if day_key(days.last(), owner, repo) == k {
        Some(days.last())
    } else {
        last_on(days.drop_last(), owner, repo, k)
    }
}

/// The counters of the facet other than `kind`.
pub open spec fn other_facet(c: (int, int, int, int), kind: StatType) -> (int, int) {
    match kind {
        StatType::Clones => (c.2, c.3),
        StatType::Views => (c.0, c.1),
    }
}

/// Row by row, an upsert of `days` does this: a row that none of them falls
/// on is untouched; a row that some fall on exists afterwards, with the
/// counters of `kind` taken from the last of them and the others kept (zero
/// for a new row).
pub proof fn upsert_all_at(
    t: Map<(int, int, int, Seq<char>, Seq<char>), (int, int, int, int)>,
    kind: StatType,
    owner: Seq<char>,
    repo: Seq<char>,
    days: Seq<DayStats>,
    k: (int, int, int, Seq<char>, Seq<char>),
)
    ensures
        upsert_all(t, kind, owner, repo, days).contains_key(k) == (t.contains_key(k) || last_on(
            days,
            owner,
            repo,
            k,
        ) is Some),
        upsert_all(t, kind, owner, repo, days).contains_key(k) ==> upsert_all(
            t,
            kind,
            owner,
            repo,
            days,
        )[k] == match last_on(days, owner, repo, k) {
            Some(d) => with_facet(counters_or_zero(t, k), kind, d.count as int, d.uniques as int),
            None => t[k],
        },
    decreases days.len(),
{
    if days.len() > 0 {
        upsert_all_at(t, kind, owner, repo, days.drop_last(), k);
    }
}

/// Upserting the same days twice leaves the store as upserting them once.
pub proof fn upsert_is_idempotent(
    t: Map<(int, int, int, Seq<char>, Seq<char>), (int, int, int, int)>,
    kind: StatType,
    owner: Seq<char>,
    repo: Seq<char>,
    days: Seq<DayStats>,
)
    ensures
        upsert_all(upsert_all(t, kind, owner, repo, days), kind, owner, repo, days) == upsert_all(
            t,
            kind,
            owner,
            repo,
            days,
        ),
{
    let u = upsert_all(t, kind, owner, repo, days);
    let v = upsert_all(u, kind, owner, repo, days);
    assert forall|k: (int, int, int, Seq<char>, Seq<char>)|
        #[trigger] v.dom().contains(k) == u.dom().contains(k) by {
        upsert_all_at(t, kind, owner, repo, days, k);
        upsert_all_at(u, kind, owner, repo, days, k);
    }
    assert forall|k: (int, int, int, Seq<char>, Seq<char>)| v.dom().contains(k) implies #[trigger] v[k]
        == u[k] by {
        upsert_all_at(t, kind, owner, repo, days, k);
        upsert_all_at(u, kind, owner, repo, days, k);
    }
    assert(v =~= u);
}

/// An upsert of one facet never changes the other facet's counters of a row
/// that was there.
pub proof fn upsert_keeps_other_facet(
    t: Map<(int, int, int, Seq<char>, Seq<char>), (int, int, int, int)>,
    kind: StatType,
    owner: Seq<char>,
    repo: Seq<char>,
    days: Seq<DayStats>,
    k: (int, int, int, Seq<char>, Seq<char>),
)
    requires
        t.contains_key(k),
    ensures
        upsert_all(t, kind, owner, repo, days).contains_key(k),
        other_facet(upsert_all(t, kind, owner, repo, days)[k], kind) == other_facet(t[k], kind),
{
    upsert_all_at(t, kind, owner, repo, days, k);
}

/// Upserting the views of a day, then its clones, leaves that day's row with
/// both: each upsert overwrites its own facet only.
pub proof fn views_then_clones(
    t: Map<(int, int, int, Seq<char>, Seq<char>), (int, int, int, int)>,
    owner: Seq<char>,
    repo: Seq<char>,
    views: DayStats,
    clones: DayStats,
)
    requires
        views.timestamp == clones.timestamp,
    ensures
        ({
            let t1 = upsert_all(t, StatType::Views, owner, repo, seq![views]);
            let t2 = upsert_all(t1, StatType::Clones, owner, repo, seq![clones]);
            let k = day_key(views, owner, repo);
            &&& t2.contains_key(k)
            &&& t2[k] == (
                clones.count as int,
                clones.uniques as int,
                views.count as int,
                views.uniques as int,
            )
        }),
{
    let k = day_key(views, owner, repo);
    let t1 = upsert_all(t, StatType::Views, owner, repo, seq![views]);
    upsert_all_at(t, StatType::Views, owner, repo, seq![views], k);
    upsert_all_at(t1, StatType::Clones, owner, repo, seq![clones], k);
    assert(seq![views].drop_last() =~= Seq::<DayStats>::empty());
    assert(seq![clones].drop_last() =~= Seq::<DayStats>::empty());
}

/// The traffic table: four counters per (day, owner, repository), zero by default.
const CREATE_TRAFFIC: &'static str = "CREATE TABLE IF NOT EXISTS traffic (
    y INTEGER NOT NULL, m INTEGER NOT NULL, d INTEGER NOT NULL,
    owner TEXT NOT NULL, repo TEXT NOT NULL,
    c_count INTEGER NOT NULL DEFAULT 0, c_uniq INTEGER NOT NULL DEFAULT 0,
    v_count INTEGER NOT NULL DEFAULT 0, v_uniq INTEGER NOT NULL DEFAULT 0,
    PRIMARY KEY (y, m, d, owner, repo))";

const UPSERT_CLONES: &'static str = "INSERT INTO traffic (y, m, d, owner, repo, c_count, c_uniq)
    VALUES (?1, ?2, ?3, ?4, ?5, ?6, ?7) ON CONFLICT (y, m, d, owner, repo)
    DO UPDATE SET c_count = excluded.c_count, c_uniq = excluded.c_uniq";

const UPSERT_VIEWS: &'static str = "INSERT INTO traffic (y, m, d, owner, repo, v_count, v_uniq)
    VALUES (?1, ?2, ?3, ?4, ?5, ?6, ?7) ON CONFLICT (y, m, d, owner, repo)
    DO UPDATE SET v_count = excluded.v_count, v_uniq = excluded.v_uniq";

const SELECT_REPOS: &'static str =
    "SELECT owner, repo FROM traffic GROUP BY owner, repo ORDER BY owner, repo";

const SELECT_WINDOW: &'static str = "SELECT y, m, d, v_count, v_uniq, c_count, c_uniq FROM traffic
    WHERE owner = ?1 AND repo = ?2 AND (y, m, d) >= (?3, ?4, ?5) AND (y, m, d) <= (?6, ?7, ?8)
    ORDER BY y DESC, m DESC, d DESC LIMIT ?9";

const COUNT_REPO: &'static str = "SELECT COUNT(*) FROM traffic WHERE owner = ?1 AND repo = ?2";

/// Relies on rusqlite's `Connection::open`: opens, or creates, the database
/// file.
#[verifier::external_body]
fn open_connection(path: &PathBuf) -> (r: Result<Connection, rusqlite::Error>) {
    Connection::open(path)
}

/// Relies on rusqlite's `Connection::execute` running SQLite's
/// `CREATE TABLE IF NOT EXISTS`: an existing table keeps its rows, a new one
/// has none.
#[verifier::external_body]
fn create_traffic_table(c: &mut Connection) -> (r: Result<(), rusqlite::Error>)
    ensures
        r is Ok ==> traffic_table(*final(c)) == traffic_table(*old(c)),
{
    c.execute(CREATE_TRAFFIC, ())?;
    Ok(())
}

/// Relies on rusqlite's `Connection::execute` running SQLite's upsert
/// (`INSERT ... ON CONFLICT DO UPDATE`) of the clone counters: the row under
/// the key is created with zeros where missing and its clone counters set. A
/// statement that fails (a count past SQLite's integers, a full disk) changes
/// nothing: outside a transaction each SQLite statement is atomic.
#[verifier::external_body]
fn upsert_clone_day(
    c: &mut Connection,
    y: i32,
    m: u32,
    d: u32,
    owner: &str,
    repo: &str,
    count: u64,
    uniques: u64,
) -> (r: Result<(), rusqlite::Error>)
    ensures
        r is Ok ==> traffic_table(*final(c)) == ({
            let k = (y as int, m as int, d as int, owner@, repo@);
            let t = traffic_table(*old(c));
            t.insert(k, with_facet(counters_or_zero(t, k), StatType::Clones, count as int, uniques as int))
        }),
        r is Err ==> traffic_table(*final(c)) == traffic_table(*old(c)),
{
    c.execute(UPSERT_CLONES, (y, m, d, owner, repo, count, uniques))?;
    Ok(())
}

/// Relies on rusqlite's `Connection::execute` running SQLite's upsert
/// (`INSERT ... ON CONFLICT DO UPDATE`) of the view counters: the row under
/// the key is created with zeros where missing and its view counters set. A
/// statement that fails changes nothing: outside a transaction each SQLite
/// statement is atomic.
#[verifier::external_body]
fn upsert_view_day(
    c: &mut Connection,
    y: i32,
    m: u32,
    d: u32,
    owner: &str,
    repo: &str,
    count: u64,
    uniques: u64,
) -> (r: Result<(), rusqlite::Error>)
    ensures
        r is Ok ==> traffic_table(*final(c)) == ({
            let k = (y as int, m as int, d as int, owner@, repo@);
            let t = traffic_table(*old(c));
            t.insert(k, with_facet(counters_or_zero(t, k), StatType::Views, count as int, uniques as int))
        }),
        r is Err ==> traffic_table(*final(c)) == traffic_table(*old(c)),
{
    c.execute(UPSERT_VIEWS, (y, m, d, owner, repo, count, uniques))?;
    Ok(())
}

/// Relies on rusqlite's `Connection::prepare` and `Statement::query_map`
/// running SQLite's `GROUP BY owner, repo ORDER BY owner, repo`: the distinct
/// pairs, in the byte order of their texts.
#[verifier::external_body]
fn select_repo_pairs(c: &Connection) -> (r: Result<Vec<(String, String)>, rusqlite::Error>)
    ensures
        r matches Ok(v) ==> is_repo_list(
            traffic_table(*c),
            v@.map_values(|p: (String, String)| (p.0@, p.1@)),
        ),
{
    let mut stmt = c.prepare(SELECT_REPOS)?;
    let rows = stmt.query_map([], |row| Ok((row.get(0)?, row.get(1)?)))?;
    rows.collect()
}

/// Relies on rusqlite's `Connection::prepare` and `Statement::query_map`
/// running SQLite's row-value comparison, `ORDER BY ... DESC` and `LIMIT`:
/// the latest `limit` rows of the repository within `[from, to]`.
#[verifier::external_body]
fn select_window(
    c: &Connection,
    owner: &str,
    repo: &str,
    from: CalDate,
    to: CalDate,
    limit: u32,
) -> (r: Result<Vec<RepoStats>, rusqlite::Error>)
    ensures
        r matches Ok(v) ==> is_window(
            traffic_table(*c),
            owner@,
            repo@,
            from,
            to,
            limit as int,
            v@,
        ),
{
    let mut stmt = c.prepare(SELECT_WINDOW)?;
    let params = (owner, repo, from.year, from.month, from.day, to.year, to.month, to.day, limit);
    let rows = stmt.query_map(params, |row| {
        Ok(RepoStats {
            date: CalDate { year: row.get(0)?, month: row.get(1)?, day: row.get(2)? },
            views: Stats { count: row.get(3)?, uniques: row.get(4)? },
            clones: Stats { count: row.get(5)?, uniques: row.get(6)? },
        })
    })?;
    rows.collect()
}

/// Relies on rusqlite's `Connection::query_row` running SQLite's `COUNT`: the
/// number of rows of the repository, zero exactly where there is none.
#[verifier::external_body]
fn count_repo_rows(c: &Connection, owner: &str, repo: &str) -> (r: Result<u64, rusqlite::Error>)
    ensures
        r matches Ok(n) ==> (n > 0 <==> has_repo(traffic_table(*c), owner@, repo@)),
{
    c.query_row(COUNT_REPO, (owner, repo), |row| row.get(0))
}

/// The traffic store.
pub struct Database {
    conn: Connection,
}

impl Database {
    /// The rows of the store.
    pub closed spec fn table(&self) -> Map<
        (int, int, int, Seq<char>, Seq<char>),
        (int, int, int, int),
    > {
        traffic_table(self.conn)
    }

    /// Opens the store in `database_file`, creating the file and its table
    /// where they are missing.
    pub fn new(database_file: &PathBuf) -> (r: Result<Self, StoreError>)
        ensures
            r matches Err(e) ==> e is Sql,
    {
        let mut conn = match open_connection(database_file) {
            Ok(c) => c,
            Err(e) => return Err(StoreError::Sql(e)),
        };
        match create_traffic_table(&mut conn) {
            Ok(()) => Ok(Database { conn }),
            Err(e) => Err(StoreError::Sql(e)),
        }
    }

    /// Upserts each of `stats` in turn, each in one atomic statement: the
    /// day's row is created with zeros where missing, then the two counters of
    /// `stat_type` are overwritten. On a failure the days before the failing
    /// one stay upserted and the failing one leaves no trace.
    pub fn update_traffic(&mut self, stat_type: StatType, owner: &str, repo: &str, stats: Vec<DayStats>) -> (r:
        Result<(), StoreError>)
        ensures
            stats@.len() == 0 ==> r is Ok,
            r is Ok ==> final(self).table() == upsert_all(
                old(self).table(),
                stat_type,
                owner@,
                repo@,
                stats@,
            ),
            r matches Err(e) ==> e is Sql && exists|n: int|
                0 <= n < stats@.len() && final(self).table() == upsert_all(
                    old(self).table(),
                    stat_type,
                    owner@,
                    repo@,
                    #[trigger] stats@.subrange(0, n),
                ),
    {
        let mut i: usize = 0;
        while i < stats.len()
            invariant
                i <= stats@.len(),
                self.table() == upsert_all(
                    old(self).table(),
                    stat_type,
                    owner@,
                    repo@,
                    stats@.subrange(0, i as int),
                ),
            decreases stats@.len() - i,
        {
            let day = stats[i];
            let (y, m, d) = (day.timestamp.year, day.timestamp.month, day.timestamp.day);
            let done = match stat_type {
                StatType::Clones => upsert_clone_day(
                    &mut self.conn,
                    y,
                    m,
                    d,
                    owner,
                    repo,
                    day.count,
                    day.uniques,
                ),
                StatType::Views => upsert_view_day(
                    &mut self.conn,
                    y,
                    m,
                    d,
                    owner,
                    repo,
                    day.count,
                    day.uniques,
                ),
            };
            if let Err(e) = done {
                return Err(StoreError::Sql(e));
            }
            assert(stats@.subrange(0, i + 1).drop_last() =~= stats@.subrange(0, i as int));
            i = i + 1;
        }
        assert(stats@.subrange(0, stats@.len() as int) =~= stats@);
        Ok(())
    }

    /// The distinct repositories of the store, ordered by owner, then name.
    pub fn get_repo_list(&self) -> (r: Result<Vec<Repo>, StoreError>)
        ensures
            r matches Ok(v) ==> is_repo_list(
                self.table(),
                v@.map_values(|p: Repo| (p.owner@, p.name@)),
            ),
            r matches Err(e) ==> e is Sql,
    {
        let pairs = match select_repo_pairs(&self.conn) {
            Ok(p) => p,
            Err(e) => return Err(StoreError::Sql(e)),
        };
        let ghost pv = pairs@.map_values(|p: (String, String)| (p.0@, p.1@));
        let mut out: Vec<Repo> = Vec::new();
        let mut pairs = pairs;
        let mut i: usize = 0;
        let n = pairs.len();
        while i < n
            invariant
                n == pairs@.len(),
                i <= n,
                pv == pairs@.map_values(|p: (String, String)| (p.0@, p.1@)),
                out@.map_values(|p: Repo| (p.owner@, p.name@)) == pv.subrange(0, i as int),
            decreases n - i,
        {
            let ghost before = out@.map_values(|p: Repo| (p.owner@, p.name@));
            let owner = pairs[i].0.clone();
            let name = pairs[i].1.clone();
            out.push(Repo { owner, name });
            assert(out@.map_values(|p: Repo| (p.owner@, p.name@)) =~= before.push(pv[i as int]));
            assert(pv.subrange(0, i + 1) =~= pv.subrange(0, i as int).push(pv[i as int]));
            i = i + 1;
        }
        assert(pv.subrange(0, n as int) =~= pv);
        Ok(out)
    }

    /// The stored days of a repository within `[now_ref - days, now_ref]`,
    /// most recent first, at most `days` of them.
    pub fn get_repo_stats(&self, owner: &str, repo_name: &str, now_ref: CalDate, days: u32) -> (r:
        Result<Vec<RepoStats>, StoreError>)
        ensures
            sub_days_spec(now_ref, days as int) is None <==> r matches Err(
                StoreError::DateOutOfRange,
            ),
            r matches Ok(v) ==> is_window(
                self.table(),
                owner@,
                repo_name@,
                sub_days_spec(now_ref, days as int)->0,
                now_ref,
                days as int,
                v@,
            ),
    {
        let from = match now_ref.checked_sub_days(days as u64) {
            Some(d) => d,
            None => return Err(StoreError::DateOutOfRange),
        };
        match select_window(&self.conn, owner, repo_name, from, now_ref, days) {
            Ok(v) => Ok(v),
            Err(e) => Err(StoreError::Sql(e)),
        }
    }

    /// Whether the store holds a day of the repository.
    pub fn repo_exists(&self, owner: &str, repo_name: &str) -> (r: Result<bool, StoreError>)
        ensures
            r matches Ok(b) ==> b == has_repo(self.table(), owner@, repo_name@),
            r matches Err(e) ==> e is Sql,
    {
        match count_repo_rows(&self.conn, owner, repo_name) {
            Ok(n) => Ok(n != 0),
            Err(e) => Err(StoreError::Sql(e)),
        }
    }
}

} // verus!
