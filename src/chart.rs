//! The day-by-day series behind a traffic chart: data points per date, running
//! totals per metric index, and the dense, zero-filled window that the drawing
//! code plots.
use std::collections::HashMap;
use std::path::PathBuf;
use vstd::prelude::*;

use crate::date::{sub_days_spec, CalDate};
use crate::text::{decimal, push_decimal};
use crate::{RepoStats, StatType};

verus! {

broadcast use vstd::std_specs::hash::group_hash_axioms;

#[verifier::external_type_specification]
#[verifier::external_body]
pub struct ExPathBuf(PathBuf);

/// The value stored under `k`, zero where there is none.
pub open spec fn count_of(m: Map<u8, u64>, k: u8) -> int {
    if m.contains_key(k) {
        m[k] as int
    } else {
        0
    }
}

/// The data points recorded for date `d`: those of the latest `add` for it.
pub open spec fn points_on(entries: Seq<(CalDate, Map<u8, u64>)>, d: CalDate) -> Option<
    Map<u8, u64>,
>
    decreases entries.len(),
{
    if entries.len() == 0 {
        None
    } else if entries.last().0 == d {
        Some(entries.last().1)
    } else {
        points_on(entries.drop_last(), d)
    }
}

/// The value plotted for metric `k` on date `d`: zero where nothing was recorded.
pub open spec fn value_on(entries: Seq<(CalDate, Map<u8, u64>)>, d: CalDate, k: u8) -> int {
    match points_on(entries, d) {
        Some(m) => count_of(m, k),
        None => 0,
    }
}

/// The totals after adding the data points `data` to `counts`.
pub open spec fn added_totals(counts: Map<u8, u64>, data: Map<u8, u64>) -> Map<u8, u64> {
    Map::new(
        |k: u8| counts.contains_key(k) || data.contains_key(k),
        |k: u8| (count_of(counts, k) + count_of(data, k)) as u64,
    )
}

/// The dense series for metric `k`: one point per day walking back from `today`,
/// `None` where one of those days is out of the calendar's range.
pub open spec fn dense_series(
    entries: Seq<(CalDate, Map<u8, u64>)>,
    k: u8,
    today: CalDate,
    days: nat,
) -> Option<Seq<(u32, u64)>> {
    if exists|i: int| 0 <= i < days && sub_days_spec(today, i) is None {
        None
    } else {
        Some(
            Seq::new(
                days,
                |i: int| (i as u32, value_on(entries, sub_days_spec(today, i)->0, k) as u64),
            ),
        )
    }
}

/// The top of the value axis: the largest value, at least ten, rounded up to a
/// multiple of ten.
pub open spec fn axis_top_spec(max_y: int) -> int {
    (max_y + 9) / 10 * 10
}

/// The label of a series in the legend: its name and its total in parentheses,
/// or "?" where the series has no name.
pub open spec fn legend_spec(renames: Map<u8, String>, counts: Map<u8, u64>, k: u8) -> Seq<char> {
    if renames.contains_key(k) {
        renames[k]@ + " ("@ + decimal(count_of(counts, k) as nat) + ")"@
    } else {
        "?"@
    }
}

/// Whether entry `i` is the latest one recorded for its date.
pub open spec fn is_current(entries: Seq<(CalDate, Map<u8, u64>)>, i: int) -> bool {
    forall|j: int| i < j < entries.len() ==> #[trigger] entries[j].0 != entries[i].0
}

/// `top` is the largest value in the current data points, or ten where that is more.
pub open spec fn is_peak(entries: Seq<(CalDate, Map<u8, u64>)>, top: int) -> bool {
    &&& top >= 10
    &&& forall|i: int, k: u8|
        0 <= i < entries.len() && is_current(entries, i) && #[trigger] entries[i].1.contains_key(k)
            ==> entries[i].1[k] <= top
    &&& top == 10 || exists|i: int, k: u8|
        0 <= i < entries.len() && is_current(entries, i) && #[trigger] entries[i].1.contains_key(k)
            && entries[i].1[k] == top
}

/// The data points of one stored day for facet `t`: 0 for the count, 1 for unique count.
pub open spec fn facet_points(s: RepoStats, t: StatType) -> Map<u8, u64> {
    map![0u8 => s.facet(t).count, 1u8 => s.facet(t).uniques]
}

/// The way `add` leaves the running totals after each of `pts` in turn.
pub open spec fn totals_after(counts: Map<u8, u64>, pts: Seq<Map<u8, u64>>) -> Map<u8, u64>
    decreases pts.len(),
{
    if pts.len() == 0 {
        counts
    } else {
        added_totals(totals_after(counts, pts.drop_last()), pts.last())
    }
}

/// Data points of a chart, keyed by date and by a small metric index
/// (0 for counts, 1 for unique counts).
pub struct ChartGenerator {
    // Points per date, in the order they were added; the latest entry for a
    // date is the one that counts (see `points_on`). A list rather than a hash
    // map keyed by date: the map's specification in vstd covers integer keys
    // only.
    data: Vec<(CalDate, HashMap<u8, u64>)>,
    renames: HashMap<u8, String>,
    counts: HashMap<u8, u64>,
    width: u32,
    height: u32,
    filename: PathBuf,
    title: String,
    days: u32,
}

impl ChartGenerator {
    /// The recorded data points, oldest `add` first.
    pub closed spec fn entries(&self) -> Seq<(CalDate, Map<u8, u64>)> {
        self.data@.map_values(|e: (CalDate, HashMap<u8, u64>)| (e.0, e.1@))
    }

    pub closed spec fn totals(&self) -> Map<u8, u64> {
        self.counts@
    }

    pub closed spec fn names(&self) -> Map<u8, String> {
        self.renames@
    }

    /// The file the chart is drawn to.
    pub closed spec fn file(&self) -> PathBuf {
        self.filename
    }

    pub closed spec fn size(&self) -> (u32, u32) {
        (self.width, self.height)
    }

    pub closed spec fn day_count(&self) -> nat {
        self.days as nat
    }

    pub closed spec fn title_spec(&self) -> Seq<char> {
        self.title@
    }

    pub fn new(title: String, filename: PathBuf, renames: HashMap<u8, String>, days: u32) -> (r:
        Self)
        ensures
            r.entries() == Seq::<(CalDate, Map<u8, u64>)>::empty(),
            r.totals() == Map::<u8, u64>::empty(),
            r.names() == renames@,
            r.day_count() == days,
            r.title_spec() == title@,
            r.size() == (640u32, 480u32),
            r.file() == filename,
    {
        let r = ChartGenerator {
            data: Vec::new(),
            renames,
            counts: HashMap::new(),
            width: 640,
            height: 480,
            filename,
            title,
            days,
        };
        assert(r.entries() =~= Seq::<(CalDate, Map<u8, u64>)>::empty());
        r
    }

    pub fn title(&self) -> (r: &String)
        ensures
            r@ == self.title_spec(),
    {
        &self.title
    }

    pub fn filename(&self) -> (r: &PathBuf)
        ensures
            *r == self.file(),
    {
        &self.filename
    }

    pub fn width(&self) -> (r: u32)
        ensures
            r == self.size().0,
    {
        self.width
    }

    pub fn height(&self) -> (r: u32)
        ensures
            r == self.size().1,
    {
        self.height
    }

    pub fn days(&self) -> (r: u32)
        ensures
            r == self.day_count(),
    {
        self.days
    }

    /// The value of metric `k` recorded for date `d`, zero where there is none.
    pub fn value_for(&self, d: CalDate, k: u8) -> (r: u64)
        ensures
            r == value_on(self.entries(), d, k),
    {
        let ghost es = self.entries();
        let mut i = self.data.len();
        assert(es.subrange(0, i as int) =~= es);
        while i > 0
            invariant
                i <= self.data.len(),
                es == self.entries(),
                points_on(es, d) == points_on(es.subrange(0, i as int), d),
            decreases i,
        {
            assert(es.subrange(0, i as int).drop_last() =~= es.subrange(0, i - 1));
            if self.data[i - 1].0 == d {
                return match self.data[i - 1].1.get(&k) {
                    Some(v) => *v,
                    None => 0,
                };
            }
            i = i - 1;
        }
        0
    }

    /// The dense series of metric `k` for the chart's days, walking back from
    /// `today`: entry `i` is `(i, value on today minus i days)`, zero where no
    /// data point was recorded. `None` where one of those days is out of range.
    pub fn series(&self, k: u8, today: CalDate) -> (r: Option<Vec<(u32, u64)>>)
        ensures
            r matches Some(v) ==> dense_series(self.entries(), k, today, self.day_count())
                == Some(v@),
            r is None <==> dense_series(self.entries(), k, today, self.day_count()) is None,
    {
        let mut out: Vec<(u32, u64)> = Vec::new();
        let mut i: u32 = 0;
        while i < self.days
            invariant
                i <= self.days,
                out@.len() == i,
                forall|j: int| 0 <= j < i ==> #[trigger] sub_days_spec(today, j) is Some,
                forall|j: int|
                    0 <= j < i ==> #[trigger] out@[j] == (j as u32, value_on(
                        self.entries(),
                        sub_days_spec(today, j)->0,
                        k,
                    ) as u64),
            decreases self.days - i,
        {
            match today.checked_sub_days(i as u64) {
                None => {
                    assert(sub_days_spec(today, i as int) is None);
                    return None;
                },
                Some(d) => {
                    let v = self.value_for(d, k);
                    out.push((i, v));
                },
            }
            i = i + 1;
        }
        assert(out@ =~= Seq::new(
            self.day_count(),
            |j: int| (j as u32, value_on(self.entries(), sub_days_spec(today, j)->0, k) as u64),
        ));
        Some(out)
    }

    /// Whether entry `i` is the latest one recorded for its date.
    fn is_latest(&self, i: usize) -> (r: bool)
        requires
            i < self.entries().len(),
        ensures
            r == is_current(self.entries(), i as int),
    {
        let n = self.data.len();
        assert(self.entries().len() == n);
        let mut j = i + 1;
        while j < self.data.len()
            invariant
                i < j <= self.data.len(),
                forall|m: int| i < m < j ==> #[trigger] self.entries()[m].0 != self.entries()[i as int].0,
            decreases self.data.len() - j,
        {
            if self.data[j].0 == self.data[i].0 {
                assert(self.entries()[j as int].0 == self.entries()[i as int].0);
                return false;
            }
            j = j + 1;
        }
        true
    }

    /// The largest value of the current data points, at least ten.
    pub fn max_y(&self) -> (r: u64)
        ensures
            is_peak(self.entries(), r as int),
    {
        let ghost es = self.entries();
        let mut top: u64 = 10;
        let mut i: usize = 0;
        while i < self.data.len()
            invariant
                i <= self.data.len(),
                es == self.entries(),
                top >= 10,
                forall|a: int, k: u8|
                    0 <= a < i && is_current(es, a) && #[trigger] es[a].1.contains_key(k)
                        ==> es[a].1[k] <= top,
                top == 10 || exists|a: int, k: u8|
                    0 <= a < i && is_current(es, a) && #[trigger] es[a].1.contains_key(k)
                        && es[a].1[k] == top,
            decreases self.data.len() - i,
        {
            if self.is_latest(i) {
                let mut k: u16 = 0;
                while k < 256
                    invariant
                        i < self.data.len(),
                        k <= 256,
                        es == self.entries(),
                        is_current(es, i as int),
                        top >= 10,
                        forall|a: int, j: u8|
                            0 <= a < i && is_current(es, a) && #[trigger] es[a].1.contains_key(j)
                                ==> es[a].1[j] <= top,
                        forall|j: u8|
                            j < k && #[trigger] es[i as int].1.contains_key(j) ==> es[i as int].1[j]
                                <= top,
                        top == 10 || exists|a: int, j: u8|
                            0 <= a <= i && is_current(es, a) && #[trigger] es[a].1.contains_key(j)
                                && es[a].1[j] == top,
                    decreases 256 - k,
                {
                    match self.data[i].1.get(&(k as u8)) {
                        Some(v) => {
                            if *v > top {
                                top = *v;
                                assert(es[i as int].1.contains_key(k as u8) && es[i as int].1[k as u8]
                                    == top);
                            }
                        },
                        None => {},
                    }
                    k = k + 1;
                }
            }
            i = i + 1;
        }
        top
    }

    /// The legend label of metric `k`: its name and its total, or "?".
    pub fn legend(&self, k: u8) -> (r: String)
        ensures
            r@ == legend_spec(self.names(), self.totals(), k),
    {
        match self.renames.get(&k) {
            None => String::from_str("?"),
            Some(name) => {
                let total = match self.counts.get(&k) {
                    Some(c) => *c,
                    None => 0,
                };
                let mut s = name.clone();
                s.append(" (");
                push_decimal(&mut s, total);
                s.append(")");
                s
            },
        }
    }

    /// Whether `add` may take `data`: no running total would pass `u64::MAX`.
    pub open spec fn fits(&self, data: Map<u8, u64>) -> bool {
        forall|k: u8| #[trigger]
            data.contains_key(k) ==> count_of(self.totals(), k) + data[k] <= u64::MAX
    }

    pub fn can_add(&self, data: &HashMap<u8, u64>) -> (r: bool)
        ensures
            r == self.fits(data@),
    {
        let mut k: u16 = 0;
        while k < 256
            invariant
                k <= 256,
                forall|j: u8| #[trigger]
                    data@.contains_key(j) && j < k ==> count_of(self.totals(), j) + data@[j]
                        <= u64::MAX,
            decreases 256 - k,
        {
            let key = k as u8;
            match data.get(&key) {
                Some(v) => {
                    let have = match self.counts.get(&key) {
                        Some(c) => *c,
                        None => 0,
                    };
                    if have > u64::MAX - *v {
                        return false;
                    }
                },
                None => {},
            }
            k = k + 1;
        }
        true
    }

    /// Records the data points of date `d`, replacing those recorded for it
    /// before, and adds them to the running totals.
    pub fn add(&mut self, d: CalDate, data: HashMap<u8, u64>)
        requires
            old(self).fits(data@),
        ensures
            final(self).entries() == old(self).entries().push((d, data@)),
            final(self).totals() =~= added_totals(old(self).totals(), data@),
            final(self).names() == old(self).names(),
            final(self).day_count() == old(self).day_count(),
            final(self).title_spec() == old(self).title_spec(),
            final(self).size() == old(self).size(),
            final(self).file() == old(self).file(),
    {
        let mut k: u16 = 0;
        while k < 256
            invariant
                k <= 256,
                self.data == old(self).data,
                self.renames == old(self).renames,
                self.days == old(self).days,
                self.title == old(self).title,
                self.width == old(self).width,
                self.height == old(self).height,
                self.filename == old(self).filename,
                old(self).fits(data@),
                forall|j: u8| #[trigger]
                    self.counts@.contains_key(j) == (old(self).counts@.contains_key(j) || (j < k
                        && data@.contains_key(j))),
                forall|j: u8| #[trigger]
                    self.counts@.contains_key(j) ==> self.counts@[j] == count_of(
                        old(self).counts@,
                        j,
                    ) + (if j < k {
                        count_of(data@, j)
                    } else {
                        0
                    }),
            decreases 256 - k,
        {
            let key = k as u8;
            match data.get(&key) {
                Some(v) => {
                    let have = match self.counts.get(&key) {
                        Some(c) => *c,
                        None => 0,
                    };
                    assert(data@.contains_key(key));
                    self.counts.insert(key, have + *v);
                },
                None => {},
            }
            k = k + 1;
        }
        self.data.push((d, data));
        assert(self.entries() =~= old(self).entries().push((d, data@)));
    }

    /// Adds the data points of facet `t` of each stored day in `stats`, in
    /// order. Stops before the first day whose totals would pass `u64::MAX`,
    /// and returns its index.
    pub fn add_stats(&mut self, stats: &Vec<RepoStats>, t: StatType) -> (r: Result<(), usize>)
        ensures
            ({
                let n = match r {
                    Ok(()) => stats@.len() as int,
                    Err(i) => i as int,
                };
                let pts = stats@.subrange(0, n).map_values(|s: RepoStats| facet_points(s, t));
                &&& 0 <= n <= stats@.len()
                &&& final(self).entries() == old(self).entries() + stats@.subrange(0, n).map_values(
                    |s: RepoStats| (s.date, facet_points(s, t)),
                )
                &&& final(self).totals() == totals_after(old(self).totals(), pts)
                &&& r is Err ==> n < stats@.len() && !final(self).fits(facet_points(stats@[n], t))
            }),
            final(self).names() == old(self).names(),
            final(self).day_count() == old(self).day_count(),
            final(self).title_spec() == old(self).title_spec(),
            final(self).size() == old(self).size(),
            final(self).file() == old(self).file(),
    {
        let mut i: usize = 0;
        while i < stats.len()
            invariant
                i <= stats@.len(),
                self.entries() == old(self).entries() + stats@.subrange(0, i as int).map_values(
                    |s: RepoStats| (s.date, facet_points(s, t)),
                ),
                self.totals() == totals_after(
                    old(self).totals(),
                    stats@.subrange(0, i as int).map_values(|s: RepoStats| facet_points(s, t)),
                ),
                self.names() == old(self).names(),
                self.day_count() == old(self).day_count(),
                self.title_spec() == old(self).title_spec(),
                self.size() == old(self).size(),
                self.file() == old(self).file(),
            decreases stats@.len() - i,
        {
            let points = stat_points(&stats[i], t);
            if !self.can_add(&points) {
                return Err(i);
            }
            self.add(stats[i].date, points);
            proof {
                let ps = stats@.subrange(0, i + 1).map_values(|s: RepoStats| facet_points(s, t));
                assert(ps.drop_last() =~= stats@.subrange(0, i as int).map_values(
                    |s: RepoStats| facet_points(s, t),
                ));
                assert(self.entries() =~= old(self).entries() + stats@.subrange(0, i + 1).map_values(
                    |s: RepoStats| (s.date, facet_points(s, t)),
                ));
            }
            i = i + 1;
        }
        Ok(())
    }

    /// Forgets all data points and totals.
    pub fn reset(&mut self)
        ensures
            final(self).entries() == Seq::<(CalDate, Map<u8, u64>)>::empty(),
            final(self).totals() == Map::<u8, u64>::empty(),
            final(self).names() == old(self).names(),
            final(self).day_count() == old(self).day_count(),
            final(self).title_spec() == old(self).title_spec(),
            final(self).size() == old(self).size(),
            final(self).file() == old(self).file(),
    {
        self.data = Vec::new();
        self.counts = HashMap::new();
        assert(self.entries() =~= Seq::<(CalDate, Map<u8, u64>)>::empty());
    }
}

} // verus!

verus! {

/// The data points of facet `t` of a stored day: 0 for the count, 1 for the
/// unique count.
pub fn stat_points(s: &RepoStats, t: StatType) -> (r: HashMap<u8, u64>)
    ensures
        r@ == facet_points(*s, t),
{
    let f = match t {
        StatType::Clones => s.clones,
        StatType::Views => s.views,
    };
    let mut m: HashMap<u8, u64> = HashMap::new();
    m.insert(0, f.count);
    m.insert(1, f.uniques);
    assert(m@ =~= facet_points(*s, t));
    m
}

/// The top of the value axis for a largest value `max_y`: rounded up to a
/// multiple of ten.
pub fn axis_top(max_y: u64) -> (r: u64)
    requires
        max_y <= u64::MAX - 9,
    ensures
        r == axis_top_spec(max_y as int),
{
    (max_y + 9) / 10 * 10
}

} // verus!
