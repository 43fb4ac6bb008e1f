//! The process inventory: the latest listing of running processes, replaced
//! as a whole on every refresh, and searched by name.

use vstd::prelude::*;
use crate::process::{ProcessRecord, ProcessView};
use crate::text::spec_is_infix;

verus! {

/// The lower-case form of a text, as `str::to_lowercase` computes it.
pub uninterp spec fn spec_lowercase(text: Seq<char>) -> Seq<char>;

/// `str::to_lowercase`: the result is the lower-case form of the text. The
/// mapping follows the Unicode tables that the standard library carries and
/// depends on nothing but the text.
pub assume_specification[ str::to_lowercase ](text: &str) -> (r: String)
    ensures
        r@ == spec_lowercase(text@),
;

/// `str::contains` with a string pattern: true exactly when the pattern
/// occurs somewhere in the text. The empty pattern occurs in every text.
#[verifier::external_body]
fn str_contains(hay: &str, needle: &str) -> (r: bool)
    ensures
        r == spec_is_infix(needle@, hay@),
{
    hay.contains(needle)
}

/// Whether a process name matches a search text: every name matches the
/// empty text, and otherwise the lower-case form of the text has to occur in
/// the lower-case form of the name.
pub open spec fn spec_name_matches(name: Seq<char>, query: Seq<char>) -> bool {
    query.len() == 0 || spec_is_infix(spec_lowercase(query), spec_lowercase(name))
}

/// Whether `folded_query` occurs in `folded_name`. Both are expected in one
/// case already; the comparison itself is exact.
pub fn folded_contains(folded_name: &str, folded_query: &str) -> (r: bool)
    ensures
        r == spec_is_infix(folded_query@, folded_name@),
{
    str_contains(folded_name, folded_query)
}

/// Whether a process name matches a search text, ignoring case.
pub fn name_matches(name: &str, query: &str) -> (r: bool)
    ensures
        r == spec_name_matches(name@, query@),
{
    if query.is_empty() {
        true
    } else {
        let folded_name = name.to_lowercase();
        let folded_query = query.to_lowercase();
        folded_contains(folded_name.as_str(), folded_query.as_str())
    }
}

/// An automatic refresh is due when it is switched on and either none was
/// made yet or at least `interval_ms` have passed since the last one. Times
/// are in milliseconds on one clock.
pub open spec fn spec_refresh_due(
    auto_refresh: bool,
    last_ms: Option<u64>,
    now_ms: u64,
    interval_ms: u64,
) -> bool {
    auto_refresh && match last_ms {
        Some(last) => now_ms - last >= interval_ms,
        None => true,
    }
}

/// Whether an automatic refresh is due.
pub fn refresh_due(
    auto_refresh: bool,
    last_ms: Option<u64>,
    now_ms: u64,
    interval_ms: u64,
) -> (r: bool)
    ensures
        r == spec_refresh_due(auto_refresh, last_ms, now_ms, interval_ms),
{
    auto_refresh && match last_ms {
        Some(last) => now_ms >= last && now_ms - last >= interval_ms,
        None => true,
    }
}

/// A listing is valid when no pid is zero and no pid occurs twice.
pub open spec fn spec_valid_snapshot(records: Seq<ProcessView>) -> bool {
    &&& forall|i: int| 0 <= i < records.len() ==> (#[trigger] records[i]).pid != 0
    &&& forall|i: int, j: int|
        0 <= i < j < records.len() ==> (#[trigger] records[i]).pid != (#[trigger] records[j]).pid
}

/// The records of a listing as mathematical values.
pub open spec fn spec_views(records: Seq<ProcessRecord>) -> Seq<ProcessView> {
    records.map_values(|r: ProcessRecord| r@)
}

/// The records of `snapshot` whose names match `query`, in listing order.
pub open spec fn spec_filter(snapshot: Seq<ProcessView>, query: Seq<char>) -> Seq<ProcessView> {
    snapshot.filter(|p: ProcessView| spec_name_matches(p.name, query))
}

/// Checks that a listing is valid.
pub fn valid_snapshot(records: &Vec<ProcessRecord>) -> (r: bool)
    ensures
        r == spec_valid_snapshot(spec_views(records@)),
{
    let ghost views = spec_views(records@);
    let mut i: usize = 0;
    while i < records.len()
        invariant
            0 <= i <= records.len(),
            views == spec_views(records@),
            forall|a: int| 0 <= a < i ==> (#[trigger] views[a]).pid != 0,
            forall|a: int, b: int|
                0 <= a < b < i ==> (#[trigger] views[a]).pid != (#[trigger] views[b]).pid,
        decreases records.len() - i,
    {
        if records[i].pid == 0 {
            assert(views[i as int].pid == 0);
            return false;
        }
        let mut j: usize = 0;
        while j < i
            invariant
                0 <= j <= i < records.len(),
                views == spec_views(records@),
                forall|a: int| 0 <= a < j ==> (#[trigger] views[a]).pid != views[i as int].pid,
            decreases i - j,
        {
            if records[j].pid == records[i].pid {
                assert(views[j as int].pid == views[i as int].pid);
                return false;
            }
            j = j + 1;
        }
        i = i + 1;
    }
    true
}

/// Why a listing was not taken over.
#[derive(Debug, Clone, Copy, PartialEq, Eq, Structural)]
pub enum InventoryError {
    /// The listing holds the pid zero, or one pid twice.
    MalformedSnapshot,
}

/// The mathematical content of an [`Inventory`].
pub ghost struct InventoryView {
    /// The current listing, in the order in which the system gave it.
    pub snapshot: Seq<ProcessView>,
    /// Whether a refresh has been started and not yet answered.
    pub refreshing: bool,
    /// The error code of a listing that failed as a whole, until it is read.
    pub failure: Option<u32>,
}

/// The inventory after a listing was handed in: a valid listing takes the
/// place of the current one, any other leaves it as it is.
pub open spec fn spec_after_refresh(before: InventoryView, records: Seq<ProcessView>) -> InventoryView {
    if spec_valid_snapshot(records) {
        InventoryView { snapshot: records, refreshing: false, failure: None }
    } else {
        InventoryView { refreshing: false, ..before }
    }
}

/// The current process listing and the state of its refresh.
#[derive(Debug)]
pub struct Inventory {
    snapshot: Vec<ProcessRecord>,
    refreshing: bool,
    failure: Option<u32>,
}

impl View for Inventory {
    type V = InventoryView;

    closed spec fn view(&self) -> InventoryView {
        InventoryView {
            snapshot: spec_views(self.snapshot@),
            refreshing: self.refreshing,
            failure: self.failure,
        }
    }
}

impl Inventory {
    /// An inventory with an empty listing and no refresh under way.
    pub fn new() -> (r: Inventory)
        ensures
            r@.snapshot == Seq::<ProcessView>::empty(),
            !r@.refreshing,
            r@.failure.is_none(),
    {
        let r = Inventory { snapshot: Vec::new(), refreshing: false, failure: None };
        assert(r@.snapshot =~= Seq::<ProcessView>::empty());
        r
    }

    /// Asks to start a refresh. Returns `true` when the caller is to list the
    /// processes now, and `false` when a refresh is under way already, which
    /// then stands for this request too. The listing itself is not touched.
    pub fn begin_refresh(&mut self) -> (start: bool)
        ensures
            start == !old(self)@.refreshing,
            final(self)@ == (InventoryView { refreshing: true, ..old(self)@ }),
    {
        let start = !self.refreshing;
        self.refreshing = true;
        start
    }

    /// Takes over a new listing, whole. A valid listing replaces the current
    /// one entirely; a listing that is not valid is turned down and the
    /// current one stays entirely. Either way the refresh is over.
    pub fn complete_refresh(&mut self, records: Vec<ProcessRecord>) -> (r: Result<
        (),
        InventoryError,
    >)
        ensures
            final(self)@ == spec_after_refresh(old(self)@, spec_views(records@)),
            r.is_ok() == spec_valid_snapshot(spec_views(records@)),
            r.is_err() ==> r == Err::<(), InventoryError>(InventoryError::MalformedSnapshot),
    {
        self.refreshing = false;
        if valid_snapshot(&records) {
            self.snapshot = records;
            self.failure = None;
            Ok(())
        } else {
            Err(InventoryError::MalformedSnapshot)
        }
    }

    /// Records that listing the processes failed as a whole, with the
    /// system's error code. The current listing stays, and the refresh is
    /// over.
    pub fn fail_refresh(&mut self, code: u32)
        ensures
            final(self)@ == (InventoryView {
                refreshing: false,
                failure: Some(code),
                ..old(self)@
            }),
    {
        self.refreshing = false;
        self.failure = Some(code);
    }

    /// Hands out the error of a failed listing, once: the next call returns
    /// `None` until a listing fails again.
    pub fn take_failure(&mut self) -> (r: Option<u32>)
        ensures
            r == old(self)@.failure,
            final(self)@ == (InventoryView { failure: None, ..old(self)@ }),
    {
        let r = self.failure;
        self.failure = None;
        r
    }

    /// Whether a refresh has been started and not yet answered.
    pub fn is_refreshing(&self) -> (r: bool)
        ensures
            r == self@.refreshing,
    {
        self.refreshing
    }

    /// The current listing.
    pub fn processes(&self) -> (r: &Vec<ProcessRecord>)
        ensures
            spec_views(r@) == self@.snapshot,
    {
        &self.snapshot
    }

    /// The first record of the current listing with this pid.
    pub fn find(&self, pid: u32) -> (r: Option<&ProcessRecord>)
        ensures
            match r {
                Some(record) => exists|i: int|
                    0 <= i < self@.snapshot.len() && #[trigger] self@.snapshot[i] == record@
                        && record@.pid == pid && forall|j: int|
                        0 <= j < i ==> (#[trigger] self@.snapshot[j]).pid != pid,
                None => forall|i: int|
                    0 <= i < self@.snapshot.len() ==> (#[trigger] self@.snapshot[i]).pid != pid,
            },
    {
        let mut i: usize = 0;
        while i < self.snapshot.len()
            invariant
                0 <= i <= self.snapshot.len(),
                forall|j: int| 0 <= j < i ==> (#[trigger] self@.snapshot[j]).pid != pid,
            decreases self.snapshot.len() - i,
        {
            if self.snapshot[i].pid == pid {
                assert(self@.snapshot[i as int] == self.snapshot[i as int]@);
                return Some(&self.snapshot[i]);
            }
            i = i + 1;
        }
        None
    }

    /// The records whose names match `query`, ignoring case, in the order of
    /// the listing. The empty text matches every record.
    pub fn filter(&self, query: &str) -> (r: Vec<&ProcessRecord>)
        ensures
            r@.map_values(|p: &ProcessRecord| p@) == spec_filter(self@.snapshot, query@),
    {
        let ghost pred = |p: ProcessView| spec_name_matches(p.name, query@);
        let ghost views = self@.snapshot;
        let mut out: Vec<&ProcessRecord> = Vec::new();
        let mut i: usize = 0;
        proof {
            reveal(Seq::filter);
            assert(views.take(0) =~= Seq::<ProcessView>::empty());
            assert(out@.map_values(|p: &ProcessRecord| p@) =~= views.take(0).filter(pred));
        }
        while i < self.snapshot.len()
            invariant
                0 <= i <= self.snapshot.len(),
                views == self@.snapshot,
                views.len() == self.snapshot.len(),
                pred == (|p: ProcessView| spec_name_matches(p.name, query@)),
                out@.map_values(|p: &ProcessRecord| p@) == views.take(i as int).filter(pred),
            decreases self.snapshot.len() - i,
        {
            let record = &self.snapshot[i];
            let ghost before = out@.map_values(|p: &ProcessRecord| p@);
            proof {
                reveal(Seq::filter);
                assert(views.take(i + 1).drop_last() =~= views.take(i as int));
                assert(views.take(i + 1).last() == record@);
            }
            if name_matches(record.name.as_str(), query) {
                out.push(record);
                assert(out@.map_values(|p: &ProcessRecord| p@) =~= before.push(record@));
            }
            i = i + 1;
        }
        proof {
            assert(views.take(i as int) =~= views);
        }
        out
    }
}

/// The empty search text selects the whole listing.
pub proof fn lemma_filter_empty_query(snapshot: Seq<ProcessView>)
    ensures
        spec_filter(snapshot, Seq::<char>::empty()) == snapshot,
    decreases snapshot.len(),
{
    reveal(Seq::filter);
    let pred = |p: ProcessView| spec_name_matches(p.name, Seq::<char>::empty());
    if snapshot.len() > 0 {
        lemma_filter_empty_query(snapshot.drop_last());
        assert(pred(snapshot.last()));
        assert(snapshot.drop_last().push(snapshot.last()) =~= snapshot);
    }
}

/// A search selects a part of the listing: every record it selects stands in
/// the listing and matches the text, every record of the listing that matches
/// is selected, and the selection is never longer than the listing.
pub proof fn lemma_filter_selects_matches(snapshot: Seq<ProcessView>, query: Seq<char>)
    ensures
        spec_filter(snapshot, query).len() <= snapshot.len(),
        forall|p: ProcessView| #[trigger]
            spec_filter(snapshot, query).contains(p) <==> snapshot.contains(p)
                && spec_name_matches(p.name, query),
{
    let pred = |p: ProcessView| spec_name_matches(p.name, query);
    snapshot.lemma_filter_len(pred);
    assert forall|p: ProcessView| #[trigger]
        spec_filter(snapshot, query).contains(p) <==> snapshot.contains(p) && spec_name_matches(
            p.name,
            query,
        ) by {
        if spec_filter(snapshot, query).contains(p) {
            let k = choose|k: int|
                0 <= k < snapshot.filter(pred).len() && snapshot.filter(pred)[k] == p;
            snapshot.lemma_filter_pred(pred, k);
            snapshot.lemma_filter_contains_rev(pred, p);
        }
        if snapshot.contains(p) && spec_name_matches(p.name, query) {
            let k = choose|k: int| 0 <= k < snapshot.len() && snapshot[k] == p;
            snapshot.lemma_filter_contains(pred, k);
        }
    }
}

/// Two refreshes in a row, both with valid listings: a reader sees the first
/// listing whole after the first and the second whole after the second, and
/// nothing of the first remains.
pub proof fn lemma_refresh_replaces_whole(
    before: InventoryView,
    first: Seq<ProcessView>,
    second: Seq<ProcessView>,
)
    requires
        spec_valid_snapshot(first),
        spec_valid_snapshot(second),
    ensures
        spec_after_refresh(before, first).snapshot == first,
        spec_after_refresh(spec_after_refresh(before, first), second).snapshot == second,
        spec_after_refresh(spec_after_refresh(before, first), second) == spec_after_refresh(
            before,
            second,
        ),
{
}

} // verus!
