//! The paginated leaderboard scan.
//!
//! Starting at page 0, the scanner asks for pages in strictly increasing
//! order, one at a time, and stops at the first empty page (end-of-data),
//! at the first failed request (keeping everything gathered so far), or
//! when a fixed page cap is reached — so a scan terminates even against a
//! misbehaving server that never returns an empty page.
//!
//! [`Scanner`] is the step-by-step state machine: the caller performs one
//! page request per [`Scanner::pending_page`] and reports the outcome back.
//! [`scan_pages`] runs the same machine over a complete trace of per-page
//! outcomes, and its result is pinned to the recursive trace functions
//! [`scan_results`], [`scan_requests`] and [`scan_end`].

use vstd::prelude::*;

use crate::player::{
    filter_page, qualifying, PlayerInfo, PlayerInfoModel, PlayerRecord, PlayerRecordModel,
};

verus! {

/// Page cap sized for an expected leaderboard of about 5000 entries at
/// about 50 entries per page.
pub const DEFAULT_PAGE_CAP: usize = 100;

/// The two policy knobs of the scanner.
#[derive(Clone, Copy, Debug)]
pub struct ScanPolicy {
    /// When set, a record is retained only if its level exceeds this value.
    pub min_level: Option<u32>,
    /// When true, a failed page request still yields the partial result
    /// set; when false, the caller is expected to discard it and abort.
    pub continue_on_error: bool,
}

/// The outcome of one page request, as reported back to the scanner.
pub enum PageFetch {
    /// The request succeeded and returned these players (possibly none).
    Players(Vec<PlayerRecord>),
    /// The request failed.
    Failure,
}

/// Mathematical model of a [`PageFetch`].
pub enum PageFetchModel {
    Players(Seq<PlayerRecordModel>),
    Failure,
}

impl View for PageFetch {
    type V = PageFetchModel;

    open spec fn view(&self) -> PageFetchModel {
        match self {
            PageFetch::Players(ps) => PageFetchModel::Players(ps.deep_view()),
            PageFetch::Failure => PageFetchModel::Failure,
        }
    }
}

impl DeepView for PageFetch {
    type V = PageFetchModel;

    open spec fn deep_view(&self) -> PageFetchModel {
        self.view()
    }
}

/// Why a scan stopped.
#[derive(Clone, Copy, Debug, PartialEq, Eq, Structural)]
pub enum ScanEnd {
    /// A page came back empty: the end of the data was passed.
    EmptyPage,
    /// A page request failed; everything gathered before it is kept.
    PageFailure,
    /// The page cap was exhausted before an empty page or a failure.
    CapReached,
}

/// Number of page requests a scan issues over the trace `pages`, starting
/// at page `i` under cap `cap`: one request per page up to and including
/// the first empty page or failure, never more than `cap - i` in all.
pub open spec fn scan_requests(pages: Seq<PageFetchModel>, i: nat, cap: nat) -> nat
    decreases cap - i,
{
    if i >= cap {
        0
    } else {
        match pages[i as int] {
            PageFetchModel::Failure => 1,
            PageFetchModel::Players(ps) => if ps.len() == 0 {
                1
            } else {
                1 + scan_requests(pages, i + 1, cap)
            },
        }
    }
}

/// The result set a scan gathers over the trace `pages`, starting at page
/// `i` under cap `cap`: the retained pairs of every non-empty successful
/// page before the first empty page, failure, or the cap, in page-then-
/// in-page order.
pub open spec fn scan_results(
    pages: Seq<PageFetchModel>,
    i: nat,
    cap: nat,
    min_level: Option<u32>,
) -> Seq<PlayerInfoModel>
    decreases cap - i,
{
    if i >= cap {
        Seq::empty()
    } else {
        match pages[i as int] {
            PageFetchModel::Failure => Seq::empty(),
            PageFetchModel::Players(ps) => if ps.len() == 0 {
                Seq::empty()
            } else {
                qualifying(ps, min_level) + scan_results(pages, i + 1, cap, min_level)
            },
        }
    }
}

/// Why a scan over the trace `pages`, starting at page `i` under cap
/// `cap`, stops.
pub open spec fn scan_end(pages: Seq<PageFetchModel>, i: nat, cap: nat) -> ScanEnd
    decreases cap - i,
{
    if i >= cap {
        ScanEnd::CapReached
    } else {
        match pages[i as int] {
            PageFetchModel::Failure => ScanEnd::PageFailure,
            PageFetchModel::Players(ps) => if ps.len() == 0 {
                ScanEnd::EmptyPage
            } else {
                scan_end(pages, i + 1, cap)
            },
        }
    }
}

/// The retained pairs of the trace's pages `lo..hi`, in page order; every
/// page in the range is expected to be a successful fetch.
pub open spec fn qualifying_range(
    pages: Seq<PageFetchModel>,
    lo: nat,
    hi: nat,
    min_level: Option<u32>,
) -> Seq<PlayerInfoModel>
    decreases hi - lo,
{
    if lo >= hi {
        Seq::empty()
    } else {
        qualifying(pages[lo as int]->Players_0, min_level) + qualifying_range(
            pages,
            lo + 1,
            hi,
            min_level,
        )
    }
}

proof fn lemma_requests_bounded(pages: Seq<PageFetchModel>, i: nat, cap: nat)
    requires
        i <= cap,
    ensures
        scan_requests(pages, i, cap) <= cap - i,
    decreases cap - i,
{
    if i < cap {
        lemma_requests_bounded(pages, i + 1, cap);
    }
}

/// Law: for every page cap, a scan issues at most `cap` page requests,
/// whatever the server returns.
pub proof fn lemma_scan_request_cap(pages: Seq<PageFetchModel>, cap: nat)
    ensures
        scan_requests(pages, 0, cap) <= cap,
{
    lemma_requests_bounded(pages, 0, cap);
}

proof fn lemma_empty_page_segment(
    pages: Seq<PageFetchModel>,
    i: nat,
    k: nat,
    cap: nat,
    min_level: Option<u32>,
)
    requires
        i <= k < cap,
        forall|p: int|
            i <= p < k ==> pages[p] is Players && pages[p]->Players_0.len() > 0,
        pages[k as int] is Players,
        pages[k as int]->Players_0.len() == 0,
    ensures
        scan_requests(pages, i, cap) == k + 1 - i,
        scan_results(pages, i, cap, min_level) == qualifying_range(pages, i, k, min_level),
        scan_end(pages, i, cap) == ScanEnd::EmptyPage,
    decreases k - i,
{
    if i == k {
        assert(qualifying_range(pages, i, k, min_level) =~= Seq::<PlayerInfoModel>::empty());
    } else {
        lemma_empty_page_segment(pages, i + 1, k, cap, min_level);
    }
}

/// Law: over a trace whose first empty page stands at index `k`, below
/// the cap, with every earlier page successful and non-empty, the scan
/// issues exactly `k + 1` requests and returns exactly the qualifying
/// players of pages `0 .. k`, in order.
pub proof fn lemma_scan_stops_at_empty_page(
    pages: Seq<PageFetchModel>,
    cap: nat,
    min_level: Option<u32>,
    k: nat,
)
    requires
        k < cap,
        forall|p: int|
            0 <= p < k ==> pages[p] is Players && pages[p]->Players_0.len() > 0,
        pages[k as int] is Players,
        pages[k as int]->Players_0.len() == 0,
    ensures
        scan_requests(pages, 0, cap) == k + 1,
        scan_results(pages, 0, cap, min_level) == qualifying_range(pages, 0, k, min_level),
        scan_end(pages, 0, cap) == ScanEnd::EmptyPage,
{
    lemma_empty_page_segment(pages, 0, k, cap, min_level);
}

proof fn lemma_failure_segment(
    pages: Seq<PageFetchModel>,
    i: nat,
    j: nat,
    cap: nat,
    min_level: Option<u32>,
)
    requires
        i <= j < cap,
        forall|p: int|
            i <= p < j ==> pages[p] is Players && pages[p]->Players_0.len() > 0,
        pages[j as int] is Failure,
    ensures
        scan_requests(pages, i, cap) == j + 1 - i,
        scan_results(pages, i, cap, min_level) == qualifying_range(pages, i, j, min_level),
        scan_end(pages, i, cap) == ScanEnd::PageFailure,
    decreases j - i,
{
    if i == j {
        assert(qualifying_range(pages, i, j, min_level) =~= Seq::<PlayerInfoModel>::empty());
    } else {
        lemma_failure_segment(pages, i + 1, j, cap, min_level);
    }
}

/// Law: over a trace whose page `j`, below the cap, fails, with every
/// earlier page successful and non-empty, the fault-tolerant scan returns
/// exactly the qualifying players accumulated from pages `0 .. j`, and —
/// having issued exactly `j + 1` requests — never requests page `j + 1`
/// or any later page.
pub proof fn lemma_scan_stops_at_failure(
    pages: Seq<PageFetchModel>,
    cap: nat,
    min_level: Option<u32>,
    j: nat,
)
    requires
        j < cap,
        forall|p: int|
            0 <= p < j ==> pages[p] is Players && pages[p]->Players_0.len() > 0,
        pages[j as int] is Failure,
    ensures
        scan_requests(pages, 0, cap) == j + 1,
        scan_results(pages, 0, cap, min_level) == qualifying_range(pages, 0, j, min_level),
        scan_end(pages, 0, cap) == ScanEnd::PageFailure,
{
    lemma_failure_segment(pages, 0, j, cap, min_level);
}

/// Law: a scan's outcome is a function of the trace, the cap and the
/// policy alone, so re-running it against an unchanged, fully-responsive
/// server yields an identical ordered result set.
pub proof fn lemma_scan_idempotent(
    pages: Seq<PageFetchModel>,
    cap: nat,
    min_level: Option<u32>,
    r1: Seq<PlayerInfoModel>,
    r2: Seq<PlayerInfoModel>,
)
    requires
        r1 == scan_results(pages, 0, cap, min_level),
        r2 == scan_results(pages, 0, cap, min_level),
    ensures
        r1 == r2,
{
}

/// The scan state machine. The caller requests the page named by
/// [`Scanner::pending_page`], then reports the outcome through
/// [`Scanner::on_page`] or [`Scanner::on_failure`]; `None` means the scan
/// is over and [`Scanner::results`] holds the final result set.
pub struct Scanner {
    /// The policy the scan was started with.
    pub policy: ScanPolicy,
    /// The page cap the scan was started with.
    pub cap: usize,
    /// Number of page requests issued so far; also the index of the next
    /// page while the scan is running.
    pub requested: usize,
    /// Retained pairs gathered so far, in scan order.
    pub results: Vec<PlayerInfo>,
    /// Why the scan stopped, once it has.
    pub end: Option<ScanEnd>,
}

impl Scanner {
    /// State machine invariant: no more requests than the cap admits, and
    /// a running scan still has a page left under the cap.
    pub open spec fn wf(self) -> bool {
        self.requested <= self.cap && (self.end is None ==> self.requested < self.cap)
    }

    /// A fresh scan: no requests issued, no results; with a cap of zero it
    /// is already over.
    pub fn new(cap: usize, policy: ScanPolicy) -> (s: Scanner)
        ensures
            s.wf(),
            s.cap == cap,
            s.policy == policy,
            s.requested == 0,
            s.results.deep_view() == Seq::<PlayerInfoModel>::empty(),
            s.end == if cap == 0 {
                Some(ScanEnd::CapReached)
            } else {
                None::<ScanEnd>
            },
    {
        let end = if cap == 0 {
            Some(ScanEnd::CapReached)
        } else {
            None
        };
        let s = Scanner { policy, cap, requested: 0, results: Vec::new(), end };
        proof {
            assert(s.results.deep_view() =~= Seq::<PlayerInfoModel>::empty());
        }
        s
    }

    /// The index of the page to request next, or `None` once the scan is
    /// over.
    pub fn pending_page(&self) -> (r: Option<usize>)
        ensures
            r == if self.end is None {
                Some(self.requested)
            } else {
                None::<usize>
            },
    {
        match self.end {
            None => Some(self.requested),
            Some(_) => None,
        }
    }

    /// Consumes a successfully fetched page: an empty page ends the scan;
    /// otherwise its retained pairs are appended and the scan goes on
    /// unless the cap is now exhausted.
    pub fn on_page(&mut self, players: &Vec<PlayerRecord>)
        requires
            old(self).wf(),
            old(self).end is None,
        ensures
            final(self).wf(),
            final(self).policy == old(self).policy,
            final(self).cap == old(self).cap,
            final(self).requested == old(self).requested + 1,
            players.deep_view().len() == 0 ==> {
                &&& final(self).end == Some(ScanEnd::EmptyPage)
                &&& final(self).results.deep_view() == old(self).results.deep_view()
            },
            players.deep_view().len() > 0 ==> {
                &&& final(self).results.deep_view() == old(self).results.deep_view()
                    + qualifying(players.deep_view(), old(self).policy.min_level)
                &&& final(self).end == if old(self).requested + 1 == old(self).cap {
                    Some(ScanEnd::CapReached)
                } else {
                    None::<ScanEnd>
                }
            },
    {
        self.requested += 1;
        if players.len() == 0 {
            self.end = Some(ScanEnd::EmptyPage);
        } else {
            filter_page(players, self.policy.min_level, &mut self.results);
            if self.requested == self.cap {
                self.end = Some(ScanEnd::CapReached);
            }
        }
    }

    /// Records a failed page request: the scan ends at once and every
    /// result gathered so far is kept.
    pub fn on_failure(&mut self)
        requires
            old(self).wf(),
            old(self).end is None,
        ensures
            final(self).wf(),
            final(self).policy == old(self).policy,
            final(self).cap == old(self).cap,
            final(self).requested == old(self).requested + 1,
            final(self).results.deep_view() == old(self).results.deep_view(),
            final(self).end == Some(ScanEnd::PageFailure),
    {
        self.requested += 1;
        self.end = Some(ScanEnd::PageFailure);
    }
}

/// Runs a whole scan over a complete trace of per-page outcomes: entry `i`
/// of `responses` is what requesting page `i` would return. The returned
/// state is final, and its results, request count and ending are exactly
/// the trace functions' values — so the scan issues one request per page
/// up to and including the first empty page or failure, never more than
/// `cap`, and gathers exactly the retained pairs of the pages before the
/// stop, in order.
pub fn scan_pages(responses: &Vec<PageFetch>, cap: usize, policy: ScanPolicy) -> (r: Scanner)
    requires
        responses@.len() >= cap,
    ensures
        r.wf(),
        r.cap == cap,
        r.policy == policy,
        r.end is Some,
        r.requested == scan_requests(responses.deep_view(), 0, cap as nat),
        r.requested <= cap,
        r.results.deep_view() == scan_results(
            responses.deep_view(),
            0,
            cap as nat,
            policy.min_level,
        ),
        r.end == Some(scan_end(responses.deep_view(), 0, cap as nat)),
{
    let ghost tr = responses.deep_view();
    let mut s = Scanner::new(cap, policy);
    while s.end.is_none()
        invariant
            s.wf(),
            s.cap == cap,
            s.policy == policy,
            tr == responses.deep_view(),
            tr.len() >= cap,
            s.end is None ==> {
                &&& scan_results(tr, 0, cap as nat, policy.min_level) == s.results.deep_view()
                    + scan_results(tr, s.requested as nat, cap as nat, policy.min_level)
                &&& scan_requests(tr, 0, cap as nat) == s.requested + scan_requests(
                    tr,
                    s.requested as nat,
                    cap as nat,
                )
                &&& scan_end(tr, 0, cap as nat) == scan_end(tr, s.requested as nat, cap as nat)
            },
            s.end is Some ==> {
                &&& s.results.deep_view() == scan_results(tr, 0, cap as nat, policy.min_level)
                &&& s.requested == scan_requests(tr, 0, cap as nat)
                &&& s.end == Some(scan_end(tr, 0, cap as nat))
            },
        decreases cap - s.requested + (if s.end is None {
            1int
        } else {
            0int
        }),
    {
        let page = s.requested;
        assert(tr[page as int] == responses@[page as int].deep_view());
        match &responses[page] {
            PageFetch::Players(ps) => {
                let ghost before = s.results.deep_view();
                s.on_page(ps);
                proof {
                    if ps.deep_view().len() == 0 {
                        assert(scan_results(tr, page as nat, cap as nat, policy.min_level)
                            =~= Seq::<PlayerInfoModel>::empty());
                        assert(s.results.deep_view() =~= before + Seq::<
                            PlayerInfoModel,
                        >::empty());
                    } else {
                        assert(scan_results(tr, page as nat, cap as nat, policy.min_level)
                            == qualifying(ps.deep_view(), policy.min_level) + scan_results(
                            tr,
                            (page + 1) as nat,
                            cap as nat,
                            policy.min_level,
                        ));
                        assert(before + scan_results(tr, page as nat, cap as nat, policy.min_level)
                            =~= (before + qualifying(ps.deep_view(), policy.min_level))
                            + scan_results(tr, (page + 1) as nat, cap as nat, policy.min_level));
                        if s.requested == cap {
                            assert(scan_results(tr, s.requested as nat, cap as nat, policy.min_level)
                                =~= Seq::<PlayerInfoModel>::empty());
                            assert(s.results.deep_view() =~= s.results.deep_view() + Seq::<
                                PlayerInfoModel,
                            >::empty());
                        }
                    }
                }
            },
            PageFetch::Failure => {
                s.on_failure();
                proof {
                    assert(scan_results(tr, page as nat, cap as nat, policy.min_level) =~= Seq::<
                        PlayerInfoModel,
                    >::empty());
                    assert(s.results.deep_view() =~= s.results.deep_view() + Seq::<
                        PlayerInfoModel,
                    >::empty());
                }
            },
        }
    }
    s
}

/// Whether a finished scan's result set is to be emitted: always, except
/// when the scan stopped on a failed request and the policy is not
/// tolerant of partial results.
pub fn should_emit(policy: &ScanPolicy, end: ScanEnd) -> (r: bool)
    ensures
        r == (policy.continue_on_error || end != ScanEnd::PageFailure),
{
    match end {
        ScanEnd::PageFailure => policy.continue_on_error,
        _ => true,
    }
}

} // verus!
