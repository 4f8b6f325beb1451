//! The acquisition workflows: local-first resolution of a single date,
//! and the stepwise range walk that skips cached dates, fetches the
//! missing ones, and counts what was newly downloaded.
//!
//! The surrounding application performs each planned fetch and reports
//! its outcome; every decision between the steps is made here.

use vstd::prelude::*;
use crate::Error;
use crate::cache::{date_found, find_for_date, image_entry, matches_date, pick_random_local};
use crate::date::{date_le, date_lt, date_seq, date_sequence, Date};
use crate::datestr::parse_date_chars;
use crate::datestr::parse_date;

verus! {

/// What a single-image request does next.
#[derive(Clone, Copy, Debug, PartialEq, Eq, Structural)]
pub enum SinglePlan {
    /// The listed file at this position satisfies the request.
    UseLocal(usize),
    /// Nothing cached satisfies it: ask the remote service.
    FetchRemote,
}

/// Local-first resolution of one date: a cached file for the date wins,
/// and a fetch is planned exactly when the date is not cached.
pub fn single_plan(entries: &Vec<String>, target: &Date) -> (r: SinglePlan)
    requires
        target.valid(),
    ensures
        r matches SinglePlan::UseLocal(i) ==> i < entries@.len() && matches_date(
            entries.deep_view()[i as int],
            *target,
        ) && (forall|j: int| 0 <= j < i ==> !matches_date(#[trigger] entries.deep_view()[j], *target)),
        r is FetchRemote <==> !date_found(entries.deep_view(), *target),
{
    match find_for_date(entries, target) {
        Some(i) => SinglePlan::UseLocal(i),
        None => SinglePlan::FetchRemote,
    }
}

/// Local-first resolution of a random request: any cached image file
/// satisfies it, and a fetch is planned exactly when none is listed.
pub fn random_plan(entries: &Vec<String>) -> (r: SinglePlan)
    ensures
        r matches SinglePlan::UseLocal(i) ==> i < entries@.len() && image_entry(
            entries.deep_view()[i as int],
        ),
        r is FetchRemote <==> (forall|i: int|
            0 <= i < entries@.len() ==> !image_entry(#[trigger] entries.deep_view()[i])),
{
    match pick_random_local(entries) {
        Some(i) => SinglePlan::UseLocal(i),
        None => SinglePlan::FetchRemote,
    }
}

/// What a range walk asks its runner to do next.
#[derive(Clone, Copy, Debug, PartialEq, Eq, Structural)]
pub enum RangeAction {
    /// Fetch this date's image; the walk waits for the outcome.
    Fetch(Date),
    /// Every date is settled; this many images were newly downloaded.
    Done(usize),
}

/// How one planned fetch ended.
pub enum FetchOutcome {
    /// The asset was stored under this file name.
    Downloaded(String),
    /// The service has no image for the date; nothing was written.
    NoImage,
    /// The fetch failed for this reason; nothing was written.  A range
    /// walk goes on regardless; the explicit-date workflow propagates it.
    Failed(Error),
}

/// One range acquisition in progress: the dates to visit in order, the
/// folder's file names as currently known, and the tally of new
/// downloads.
pub struct RangeRun {
    dates: Vec<Date>,
    entries: Vec<String>,
    idx: usize,
    awaiting: bool,
    new_count: usize,
    downloaded: Ghost<Seq<Seq<char>>>,
}

impl RangeRun {
    /// The walk's bookkeeping is sound.
    pub closed spec fn wf(self) -> bool {
        &&& self.idx <= self.dates@.len()
        &&& self.awaiting ==> self.idx < self.dates@.len()
        &&& self.new_count <= self.idx
        &&& self.new_count == self.downloaded@.len()
        &&& forall|i: int| 0 <= i < self.dates@.len() ==> (#[trigger] self.dates@[i]).valid()
    }

    /// The file names of the images the walk has newly downloaded, in
    /// download order.
    pub closed spec fn downloads(self) -> Seq<Seq<char>> {
        self.downloaded@
    }

    /// The dates the walk visits, in visiting order.
    pub closed spec fn visit_dates(self) -> Seq<Date> {
        self.dates@
    }

    /// How many dates are already settled.
    pub closed spec fn pos(self) -> int {
        self.idx as int
    }

    /// How many images the walk has newly downloaded: always the length
    /// of `downloads`.
    pub closed spec fn count(self) -> int {
        self.new_count as int
    }

    /// The folder's file names as the walk knows them.
    pub closed spec fn known_entries(self) -> Seq<Seq<char>> {
        self.entries.deep_view()
    }

    /// A planned fetch is out and its outcome not yet recorded.
    pub closed spec fn waiting(self) -> bool {
        self.awaiting
    }

    /// A walk over `dates` against a folder listing `entries`.
    pub fn begin(entries: Vec<String>, dates: Vec<Date>) -> (r: Self)
        requires
            forall|i: int| 0 <= i < dates@.len() ==> (#[trigger] dates@[i]).valid(),
        ensures
            r.wf(),
            !r.waiting(),
            r.visit_dates() == dates@,
            r.known_entries() == entries.deep_view(),
            r.pos() == 0,
            r.count() == 0,
            r.downloads() == Seq::<Seq<char>>::empty(),
    {
        RangeRun {
            dates,
            entries,
            idx: 0,
            awaiting: false,
            new_count: 0,
            downloaded: Ghost(Seq::empty()),
        }
    }

    /// The next step: every cached date in line is skipped — never
    /// fetched — and the first uncached date is asked for; when none is
    /// left the walk finishes with its tally.
    pub fn next(&mut self) -> (r: RangeAction)
        requires
            old(self).wf(),
            !old(self).waiting(),
        ensures
            final(self).wf(),
            final(self).visit_dates() == old(self).visit_dates(),
            final(self).known_entries() == old(self).known_entries(),
            final(self).count() == old(self).count(),
            final(self).downloads() == old(self).downloads(),
            old(self).pos() <= final(self).pos(),
            forall|j: int|
                old(self).pos() <= j < final(self).pos() ==> date_found(
                    old(self).known_entries(),
                    old(self).visit_dates()[j],
                ),
            match r {
                RangeAction::Fetch(d) => {
                    &&& final(self).waiting()
                    &&& final(self).pos() < final(self).visit_dates().len()
                    &&& d == final(self).visit_dates()[final(self).pos()]
                    &&& !date_found(final(self).known_entries(), d)
                },
                RangeAction::Done(c) => {
                    &&& !final(self).waiting()
                    &&& final(self).pos() == final(self).visit_dates().len()
                    &&& c == final(self).count()
                    &&& c == final(self).downloads().len()
                    &&& c <= final(self).visit_dates().len()
                },
            },
    {
        while self.idx < self.dates.len()
            invariant
                self.wf(),
                !self.waiting(),
                self.visit_dates() == old(self).visit_dates(),
                self.known_entries() == old(self).known_entries(),
                self.count() == old(self).count(),
                self.downloads() == old(self).downloads(),
                old(self).pos() <= self.pos(),
                forall|j: int|
                    old(self).pos() <= j < self.pos() ==> date_found(
                        old(self).known_entries(),
                        old(self).visit_dates()[j],
                    ),
            decreases self.dates@.len() - self.idx,
        {
            let d: Date = self.dates[self.idx];
            match find_for_date(&self.entries, &d) {
                Some(_) => {
                    self.idx = self.idx + 1;
                },
                None => {
                    self.awaiting = true;
                    return RangeAction::Fetch(d);
                },
            }
        }
        RangeAction::Done(self.new_count)
    }

    /// Records how the asked-for fetch ended.  A downloaded file joins
    /// the known listing under its new name — which must record the
    /// fetched date, keeping at most one file per date — and the tally;
    /// a soft miss or a failure changes nothing: one date's failure
    /// never stops the walk.
    pub fn record(&mut self, outcome: FetchOutcome)
        requires
            old(self).wf(),
            old(self).waiting(),
            outcome matches FetchOutcome::Downloaded(name) ==> matches_date(
                name@,
                old(self).visit_dates()[old(self).pos()],
            ),
        ensures
            final(self).wf(),
            !final(self).waiting(),
            final(self).visit_dates() == old(self).visit_dates(),
            final(self).pos() == old(self).pos() + 1,
            final(self).count() == final(self).downloads().len(),
            match outcome {
                FetchOutcome::Downloaded(name) => final(self).count() == old(self).count() + 1
                    && final(self).known_entries() == old(self).known_entries().push(name@)
                    && final(self).downloads() == old(self).downloads().push(name@),
                FetchOutcome::NoImage => final(self).count() == old(self).count() && final(self).known_entries() == old(self).known_entries() && final(self).downloads() == old(self).downloads(),
                FetchOutcome::Failed(_) => final(self).count() == old(self).count() && final(self).known_entries() == old(self).known_entries() && final(self).downloads() == old(self).downloads(),
            },
    {
        let n: usize = self.dates.len();
        proof {
            assert(self.new_count <= self.idx < n);
        }
        match outcome {
            FetchOutcome::Downloaded(name) => {
                let ghost prev = self.entries.deep_view();
                let ghost name_view = name@;
                self.entries.push(name);
                self.new_count = self.new_count + 1;
                self.downloaded = Ghost(self.downloaded@.push(name_view));
                proof {
                    assert(self.entries.deep_view() =~= prev.push(name_view));
                }
            },
            FetchOutcome::NoImage => {},
            FetchOutcome::Failed(_) => {},
        }
        self.idx = self.idx + 1;
        self.awaiting = false;
    }
}

/// The dates a date-span request visits: both ends parsed, a malformed
/// date rejected first, then a start lying after the end — all before
/// any I/O; otherwise the full ascending span.
pub fn plan_date_span(start_str: &str, end_str: &str) -> (r: Result<Vec<Date>, Error>)
    ensures
        parse_date_chars(start_str@) is None || parse_date_chars(end_str@) is None ==> r == Err::<
            Vec<Date>,
            Error,
        >(Error::InvalidDate),
        parse_date_chars(start_str@) is Some && parse_date_chars(end_str@) is Some && date_lt(
            parse_date_chars(end_str@).unwrap(),
            parse_date_chars(start_str@).unwrap(),
        ) ==> r == Err::<Vec<Date>, Error>(Error::InvalidRange),
        parse_date_chars(start_str@) is Some && parse_date_chars(end_str@) is Some && date_le(
            parse_date_chars(start_str@).unwrap(),
            parse_date_chars(end_str@).unwrap(),
        ) ==> r is Ok && r.unwrap()@ == date_seq(
            parse_date_chars(start_str@).unwrap(),
            parse_date_chars(end_str@).unwrap(),
        ),
{
    let start: Date = match parse_date(start_str) {
        Some(d) => d,
        None => {
            return Err(Error::InvalidDate);
        },
    };
    let end: Date = match parse_date(end_str) {
        Some(d) => d,
        None => {
            return Err(Error::InvalidDate);
        },
    };
    if end.lt(&start) {
        return Err(Error::InvalidRange);
    }
    Ok(date_sequence(&start, &end))
}

/// The explicit-date workflow's verdict over its one local check and
/// (at most) one fetch.  `fetched` is `None` when the date was already
/// cached and nothing was fetched.  A cached date or a soft miss counts
/// zero, a fresh download counts one, and a failed fetch propagates its
/// error to the caller — it is never swallowed.
pub fn explicit_date_result(fetched: Option<FetchOutcome>) -> (r: Result<usize, Error>)
    ensures
        fetched is None ==> r == Ok::<usize, Error>(0),
        (match fetched {
            Some(outcome) => match outcome {
                FetchOutcome::Downloaded(_) => r == Ok::<usize, Error>(1),
                FetchOutcome::NoImage => r == Ok::<usize, Error>(0),
                FetchOutcome::Failed(e) => r == Err::<usize, Error>(e),
            },
            None => true,
        }),
{
    match fetched {
        None => Ok(0),
        Some(FetchOutcome::Downloaded(_)) => Ok(1),
        Some(FetchOutcome::NoImage) => Ok(0),
        Some(FetchOutcome::Failed(e)) => Err(e),
    }
}

/// The one date an explicit-date request concerns, or the rejection of
/// a malformed date text.
pub fn plan_explicit_date(date_str: &str) -> (r: Result<Date, Error>)
    ensures
        parse_date_chars(date_str@) is None <==> r == Err::<Date, Error>(Error::InvalidDate),
        parse_date_chars(date_str@) is Some ==> r == Ok::<Date, Error>(
            parse_date_chars(date_str@).unwrap(),
        ),
{
    match parse_date(date_str) {
        Some(d) => Ok(d),
        None => Err(Error::InvalidDate),
    }
}

} // verus!
