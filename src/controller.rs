use std::collections::HashSet;

use vstd::prelude::*;

use crate::cache::{apply_cache, distinct_dates, parse_cached_urls, parse_manifest};
use crate::pipeline::PipelineError;
use crate::state::UpdateSuccess;
use crate::date::{date_key, lemma_date_key_injective, Date};
use crate::DateUrl;

verus! {

broadcast use vstd::std_specs::hash::group_hash_axioms;

/// Whether `d` is one of `dates`.
pub open spec fn has_date(dates: Seq<Date>, d: Date) -> bool {
    exists|j: int| 0 <= j < dates.len() && dates[j]@ == d@
}

/// Those of `dates` that are not among `existing`, in order.
pub open spec fn missing_dates(dates: Seq<Date>, existing: Seq<Date>) -> Seq<Date>
    decreases dates.len(),
{
    if dates.len() == 0 {
        seq![]
    } else {
        let rest = missing_dates(dates.drop_last(), existing);
        if has_date(existing, dates.last()) {
            rest
        } else {
            rest.push(dates.last())
        }
    }
}

/// The items of a run: those of `dates` whose image is not saved yet, at
/// most `max_images` of them where that is given, with no address known yet.
pub fn select_pending(dates: &[Date], existing: &[Date], max_images: Option<usize>) -> (r: Vec<
    DateUrl,
>)
    ensures
        ({
            let missing = missing_dates(dates@, existing@);
            let n = match max_images {
                Some(m) => if m < missing.len() { m as int } else { missing.len() as int },
                None => missing.len() as int,
            };
            &&& r@.len() == n
            &&& forall|i: int|
                0 <= i < n ==> (#[trigger] r@[i]).date == missing[i] && r@[i].image_url is None
        }),
{
    let mut saved: HashSet<u64> = HashSet::new();
    let mut j: usize = 0;
    while j < existing.len()
        invariant
            j <= existing@.len(),
            forall|k: u64| #[trigger] saved@.contains(k) <==> exists|l: int| 0 <= l < j && k == date_key(existing@[l]@) as u64,
        decreases existing.len() - j,
    {
        let k = existing[j].key();
        saved.insert(k);
        j += 1;
    }
    let mut r: Vec<DateUrl> = Vec::new();
    let mut i: usize = 0;
    while i < dates.len()
        invariant
            i <= dates@.len(),
            forall|k: u64| #[trigger] saved@.contains(k) <==> exists|l: int| 0 <= l < existing@.len() && k == date_key(existing@[l]@) as u64,
            r@.len() == missing_dates(dates@.subrange(0, i as int), existing@).len(),
            forall|l: int| 0 <= l < r@.len() ==> (#[trigger] r@[l]).date == missing_dates(dates@.subrange(0, i as int), existing@)[l] && r@[l].image_url is None,
        decreases dates.len() - i,
    {
        let d = dates[i];
        let k = d.key();
        proof {
            let next = dates@.subrange(0, i + 1);
            assert(next.drop_last() =~= dates@.subrange(0, i as int));
            assert(next.last() == d);
            assert(saved@.contains(k) <==> has_date(existing@, d)) by {
                if saved@.contains(k) {
                    let l = choose|l: int| 0 <= l < existing@.len() && k == date_key(existing@[l]@) as u64;
                    lemma_date_key_injective(existing@[l], d);
                }
                if has_date(existing@, d) {
                    let l = choose|l: int| 0 <= l < existing@.len() && existing@[l]@ == d@;
                    lemma_date_key_injective(existing@[l], d);
                }
            }
        }
        if !saved.contains(&k) {
            r.push(DateUrl { date: d, image_url: None });
        }
        i += 1;
    }
    assert(dates@.subrange(0, i as int) =~= dates@);
    if let Some(m) = max_images {
        r.truncate(m);
    }
    r
}

/// The default timeout of the first requests, in seconds.
pub const TIMEOUT_INITIAL: u64 = 20;

/// The first of the options that this program does not carry out yet that
/// is given, by its name.
pub open spec fn unimplemented_option(
    file_tree: bool,
    timeout_initial: u64,
    notify_on_fail: bool,
    save_cache: bool,
    query: bool,
) -> Option<Seq<char>> {
    if file_tree {
        Some("--tree"@)
    } else if timeout_initial != TIMEOUT_INITIAL {
        Some("--initial-timeout"@)
    } else if notify_on_fail {
        Some("--notify-on-fail"@)
    } else if save_cache {
        Some("--save-cache"@)
    } else if query {
        Some("--query"@)
    } else {
        None
    }
}

/// The first option given that this program does not carry out yet, by the
/// name it is given with.
pub fn check_unimplemented_args(
    file_tree: bool,
    timeout_initial: u64,
    notify_on_fail: bool,
    save_cache: bool,
    query: bool,
) -> (r: Option<&'static str>)
    ensures
        match r {
            Some(o) => unimplemented_option(file_tree, timeout_initial, notify_on_fail, save_cache, query)
                == Some(o@),
            None => unimplemented_option(file_tree, timeout_initial, notify_on_fail, save_cache, query)
                is None,
        },
{
    if file_tree {
        return Some("--tree");
    }
    if timeout_initial != TIMEOUT_INITIAL {
        return Some("--initial-timeout");
    }
    if notify_on_fail {
        return Some("--notify-on-fail");
    }
    if save_cache {
        return Some("--save-cache");
    }
    if query {
        return Some("--query");
    }
    None
}

/// What the pool of workers holds: how many items there are, how many may be
/// worked on at once, how many were started and finished, and whether the
/// pool was cancelled.
pub struct PoolView {
    pub total: nat,
    pub limit: nat,
    pub started: nat,
    pub finished: nat,
    pub cancelled: bool,
}

/// What can happen to the pool.
pub enum PoolOp {
    /// A free worker asks for the next item.
    Start,
    /// A worker finished its item.
    Finish,
    /// The run failed: nothing more is started.
    Cancel,
}

impl PoolView {
    pub open spec fn wf(self) -> bool {
        &&& self.limit > 0
        &&& self.finished <= self.started <= self.total
        &&& self.started - self.finished <= self.limit
    }

    /// How many items are being worked on.
    pub open spec fn in_flight(self) -> nat {
        (self.started - self.finished) as nat
    }

    /// Whether the next item may start: the pool is not cancelled, an item is
    /// left, and fewer than `limit` are being worked on.
    pub open spec fn can_start(self) -> bool {
        !self.cancelled && self.started < self.total && self.in_flight() < self.limit
    }

    pub open spec fn next(self, op: PoolOp) -> PoolView {
        match op {
            PoolOp::Start => if self.can_start() {
                PoolView { started: self.started + 1, ..self }
            } else {
                self
            },
            PoolOp::Finish => if self.finished < self.started {
                PoolView { finished: self.finished + 1, ..self }
            } else {
                self
            },
            PoolOp::Cancel => PoolView { cancelled: true, ..self },
        }
    }

    pub open spec fn run_ops(self, ops: Seq<PoolOp>) -> PoolView
        decreases ops.len(),
    {
        if ops.len() == 0 {
            self
        } else {
            self.next(ops[0]).run_ops(ops.drop_first())
        }
    }
}

/// However workers start and finish, and whether or not the run is cancelled,
/// no more than `limit` items are ever worked on at once.
pub proof fn lemma_pool_bound(p: PoolView, ops: Seq<PoolOp>)
    requires
        p.wf(),
    ensures
        p.run_ops(ops).wf(),
        p.run_ops(ops).in_flight() <= p.limit,
        p.run_ops(ops).limit == p.limit,
    decreases ops.len(),
{
    if ops.len() > 0 {
        lemma_pool_bound(p.next(ops[0]), ops.drop_first());
    }
}

/// Hands out the items of a run, in order, to at most `limit` workers at once.
pub struct Pool {
    total: usize,
    limit: usize,
    started: usize,
    finished: usize,
    cancelled: bool,
}

impl View for Pool {
    type V = PoolView;

    closed spec fn view(&self) -> PoolView {
        PoolView {
            total: self.total as nat,
            limit: self.limit as nat,
            started: self.started as nat,
            finished: self.finished as nat,
            cancelled: self.cancelled,
        }
    }
}

impl Pool {
    #[verifier::type_invariant]
    closed spec fn inv(self) -> bool {
        self@.wf()
    }

    /// A pool for `total` items, `limit` of them at once.
    pub fn new(total: usize, limit: usize) -> (r: Pool)
        requires
            limit > 0,
        ensures
            r@ == (PoolView { total: total as nat, limit: limit as nat, started: 0, finished: 0, cancelled: false }),
    {
        Pool { total, limit, started: 0, finished: 0, cancelled: false }
    }

    /// The index of the next item to work on, where one may start now.
    pub fn start_next(&mut self) -> (r: Option<usize>)
        ensures
            final(self)@ == old(self)@.next(PoolOp::Start),
            r is Some <==> old(self)@.can_start(),
            r matches Some(i) ==> i == old(self)@.started,
    {
        proof {
            use_type_invariant(&*self);
        }
        if !self.cancelled && self.started < self.total && self.started - self.finished < self.limit {
            let i = self.started;
            self.started = self.started + 1;
            Some(i)
        } else {
            None
        }
    }

    /// A worker finished its item.
    pub fn finish_one(&mut self)
        ensures
            final(self)@ == old(self)@.next(PoolOp::Finish),
    {
        proof {
            use_type_invariant(&*self);
        }
        if self.finished < self.started {
            self.finished = self.finished + 1;
        }
    }

    /// Starts nothing more.
    pub fn cancel(&mut self)
        ensures
            final(self)@ == old(self)@.next(PoolOp::Cancel),
    {
        proof {
            use_type_invariant(&*self);
        }
        self.cancelled = true;
    }

    /// How many items are being worked on.
    pub fn in_flight(&self) -> (r: usize)
        ensures
            r == self@.in_flight(),
            r <= self@.limit,
    {
        proof {
            use_type_invariant(self);
        }
        self.started - self.finished
    }

    /// Whether every item was started and finished, without cancellation.
    pub fn is_complete(&self) -> (r: bool)
        ensures
            r == (!self@.cancelled && self@.finished == self@.total),
    {
        proof {
            use_type_invariant(self);
        }
        !self.cancelled && self.finished == self.total
    }

    /// Whether no item is being worked on and none will start.
    pub fn is_idle(&self) -> (r: bool)
        ensures
            r == (self@.in_flight() == 0 && !self@.can_start()),
    {
        proof {
            use_type_invariant(self);
        }
        self.started == self.finished && (self.cancelled || self.started == self.total)
    }
}

/// Where the run stands, from the side of the task that does the work.
#[derive(Clone, Copy, Debug, PartialEq, Eq, Structural)]
pub enum Phase {
    /// Check that the proxy answers.
    CheckProxy,
    /// Fetch the cache of image addresses.
    FetchCache,
    /// Work on the items.
    Download,
    /// Every item is saved.
    Finished,
    /// The run failed.
    Failed,
}

/// Why a run failed.
#[derive(Clone, Copy, Debug, PartialEq, Eq, Structural)]
pub enum RunError {
    /// The proxy did not answer with success.
    ProxyUnreachable,
    /// The cache could not be fetched.
    CacheUnavailable,
    /// The cache was fetched, and one of its lines is malformed.
    MalformedCache,
    /// The work on an item failed.
    Item(PipelineError),
}

/// What went wrong, in words.
pub open spec fn error_message(e: RunError) -> Seq<char> {
    match e {
        RunError::ProxyUnreachable => "failed to access proxy server"@,
        RunError::CacheUnavailable => "failed to fetch cache file"@,
        RunError::MalformedCache => "malformed cache file"@,
        RunError::Item(PipelineError::ResolveFailed) => "failed to fetch image url"@,
        RunError::Item(PipelineError::FetchFailed) => "failed to fetch image data"@,
        RunError::Item(PipelineError::SaveFailed) => "failed to save image"@,
    }
}

impl RunError {
    /// What went wrong, in words.
    pub fn message(&self) -> (r: &'static str)
        ensures
            r@ == error_message(*self),
    {
        match self {
            RunError::ProxyUnreachable => "failed to access proxy server",
            RunError::CacheUnavailable => "failed to fetch cache file",
            RunError::MalformedCache => "malformed cache file",
            RunError::Item(PipelineError::ResolveFailed) => "failed to fetch image url",
            RunError::Item(PipelineError::FetchFailed) => "failed to fetch image data",
            RunError::Item(PipelineError::SaveFailed) => "failed to save image",
        }
    }
}

/// The first phase after the proxy check.
pub open spec fn phase_after_proxy(use_cache: bool) -> Phase {
    if use_cache {
        Phase::FetchCache
    } else {
        Phase::Download
    }
}

/// The order of the phases: a run moves only forward, and a failed run stays failed.
pub open spec fn phase_rank(p: Phase) -> int {
    match p {
        Phase::CheckProxy => 0,
        Phase::FetchCache => 1,
        Phase::Download => 2,
        Phase::Finished => 3,
        Phase::Failed => 4,
    }
}

/// What can happen to a run, from the side of the task that does the work.
pub enum RunEvent {
    /// The proxy was asked; whether it answered with success.
    ProxyChecked(bool),
    /// The cache file was fetched, with this text.
    CacheReceived(Seq<char>),
    /// The cache file could not be fetched.
    CacheUnavailable,
    /// The work on an item failed.
    ItemFailed,
    /// Every item is saved.
    DownloadsComplete,
}

/// Whether `e` can happen in `phase`.
pub open spec fn run_expects(phase: Phase, e: RunEvent) -> bool {
    match e {
        RunEvent::ProxyChecked(_) => phase == Phase::CheckProxy,
        RunEvent::CacheReceived(_) => phase == Phase::FetchCache,
        RunEvent::CacheUnavailable => phase == Phase::FetchCache,
        RunEvent::ItemFailed => true,
        RunEvent::DownloadsComplete => phase == Phase::Download,
    }
}

/// The phase after `e`; an event that the phase does not expect changes nothing.
pub open spec fn next_phase(phase: Phase, use_cache: bool, e: RunEvent) -> Phase {
    if !run_expects(phase, e) {
        phase
    } else {
        match e {
            RunEvent::ProxyChecked(reachable) => if reachable {
                phase_after_proxy(use_cache)
            } else {
                Phase::Failed
            },
            RunEvent::CacheReceived(text) => if parse_manifest(text) is Some {
                Phase::Download
            } else {
                Phase::Failed
            },
            RunEvent::CacheUnavailable => Phase::Failed,
            RunEvent::ItemFailed => Phase::Failed,
            RunEvent::DownloadsComplete => Phase::Finished,
        }
    }
}

/// The phase after each of `events` in order.
pub open spec fn phase_after_events(phase: Phase, use_cache: bool, events: Seq<RunEvent>) -> Phase
    decreases events.len(),
{
    if events.len() == 0 {
        phase
    } else {
        phase_after_events(next_phase(phase, use_cache, events[0]), use_cache, events.drop_first())
    }
}

/// A failed run stays failed whatever happens next, so it never returns to
/// the phase in which items are worked on.
pub proof fn lemma_failed_run_stays_failed(use_cache: bool, events: Seq<RunEvent>)
    ensures
        phase_after_events(Phase::Failed, use_cache, events) == Phase::Failed,
    decreases events.len(),
{
    if events.len() > 0 {
        lemma_failed_run_stays_failed(use_cache, events.drop_first());
    }
}

/// Once every item is reported saved, whatever happens next, the run never
/// again reaches the phase in which completion is reported: completion is
/// reported once.
pub proof fn lemma_completion_reported_once(phase: Phase, use_cache: bool, events: Seq<RunEvent>)
    requires
        phase == Phase::Finished || phase == Phase::Failed,
    ensures
        !run_expects(phase_after_events(phase, use_cache, events), RunEvent::DownloadsComplete),
        phase_after_events(phase, use_cache, events) == Phase::Finished
            || phase_after_events(phase, use_cache, events) == Phase::Failed,
    decreases events.len(),
{
    if events.len() > 0 {
        lemma_completion_reported_once(
            next_phase(phase, use_cache, events[0]),
            use_cache,
            events.drop_first(),
        );
    }
}

/// A run with a proxy that does not answer fails at once, and whatever
/// happens afterwards it never reaches the phase in which items are worked on:
/// no item is started.
pub proof fn lemma_unreachable_proxy_starts_no_item(use_cache: bool, events: Seq<RunEvent>)
    ensures
        next_phase(Phase::CheckProxy, use_cache, RunEvent::ProxyChecked(false)) == Phase::Failed,
        phase_after_events(
            next_phase(Phase::CheckProxy, use_cache, RunEvent::ProxyChecked(false)),
            use_cache,
            events,
        ) != Phase::Download,
{
    lemma_failed_run_stays_failed(use_cache, events);
}

/// A cache file with a malformed line fails the run at once, and whatever
/// happens afterwards it never reaches the phase in which items are worked on.
pub proof fn lemma_malformed_cache_starts_no_item(
    use_cache: bool,
    text: Seq<char>,
    events: Seq<RunEvent>,
)
    requires
        parse_manifest(text) is None,
    ensures
        next_phase(Phase::FetchCache, use_cache, RunEvent::CacheReceived(text)) == Phase::Failed,
        phase_after_events(
            next_phase(Phase::FetchCache, use_cache, RunEvent::CacheReceived(text)),
            use_cache,
            events,
        ) != Phase::Download,
{
    lemma_failed_run_stays_failed(use_cache, events);
}

/// The steps of a run before and after its items: the proxy check, the cache,
/// and the end. The items may be worked on only in `Phase::Download`.
pub struct Run {
    phase: Phase,
    use_cache: bool,
}

impl Run {
    pub closed spec fn spec_phase(&self) -> Phase {
        self.phase
    }

    pub closed spec fn spec_use_cache(&self) -> bool {
        self.use_cache
    }

    /// A run that checks the proxy where there is one, and fetches the cache
    /// where `use_cache` holds.
    pub fn new(has_proxy: bool, use_cache: bool) -> (r: Run)
        ensures
            r.spec_phase() == if has_proxy {
                Phase::CheckProxy
            } else {
                phase_after_proxy(use_cache)
            },
            r.spec_use_cache() == use_cache,
    {
        let phase = if has_proxy {
            Phase::CheckProxy
        } else if use_cache {
            Phase::FetchCache
        } else {
            Phase::Download
        };
        Run { phase, use_cache }
    }

    pub fn phase(&self) -> (r: Phase)
        ensures
            r == self.spec_phase(),
    {
        self.phase
    }

    /// The proxy was asked; `reachable` tells whether it answered with success.
    /// Where it did not, the run fails before any item is worked on.
    pub fn proxy_checked(&mut self, reachable: bool) -> (r: Result<UpdateSuccess, RunError>)
        requires
            old(self).spec_phase() == Phase::CheckProxy,
        ensures
            final(self).spec_use_cache() == old(self).spec_use_cache(),
            final(self).spec_phase() == next_phase(
                old(self).spec_phase(),
                old(self).spec_use_cache(),
                RunEvent::ProxyChecked(reachable),
            ),
            reachable ==> r == Ok::<UpdateSuccess, RunError>(UpdateSuccess::ProxyPing)
                && final(self).spec_phase() == phase_after_proxy(old(self).spec_use_cache()),
            !reachable ==> r == Err::<UpdateSuccess, RunError>(RunError::ProxyUnreachable)
                && final(self).spec_phase() == Phase::Failed,
    {
        if reachable {
            self.phase = if self.use_cache {
                Phase::FetchCache
            } else {
                Phase::Download
            };
            Ok(UpdateSuccess::ProxyPing)
        } else {
            self.phase = Phase::Failed;
            Err(RunError::ProxyUnreachable)
        }
    }

    /// The cache file was fetched, with this text. Where it is well formed,
    /// each item that it lists gets its image address; where it is not, no
    /// item changes and the run fails.
    pub fn cache_received(&mut self, text: &str, items: &mut Vec<DateUrl>) -> (r: Result<
        UpdateSuccess,
        RunError,
    >)
        requires
            old(self).spec_phase() == Phase::FetchCache,
            distinct_dates(old(items)@),
        ensures
            final(self).spec_use_cache() == old(self).spec_use_cache(),
            final(self).spec_phase() == next_phase(
                old(self).spec_phase(),
                old(self).spec_use_cache(),
                RunEvent::CacheReceived(text@),
            ),
            final(items)@.len() == old(items)@.len(),
            match parse_manifest(text@) {
                None => {
                    &&& r == Err::<UpdateSuccess, RunError>(RunError::MalformedCache)
                    &&& final(self).spec_phase() == Phase::Failed
                    &&& final(items)@ == old(items)@
                },
                Some(m) => {
                    &&& r == Ok::<UpdateSuccess, RunError>(UpdateSuccess::FetchCache)
                    &&& final(self).spec_phase() == Phase::Download
                    &&& forall|i: int|
                        0 <= i < old(items)@.len() ==> {
                            let key = crate::date::date_key(old(items)@[i].date@) as u64;
                            &&& (#[trigger] final(items)@[i]).date == old(items)@[i].date
                            &&& if m.contains_key(key) {
                                final(items)@[i].image_url matches Some(u) && u@ == m[key]
                            } else {
                                final(items)@[i].image_url == old(items)@[i].image_url
                            }
                        }
                },
            },
    {
        match parse_cached_urls(text) {
            Ok(cache) => {
                let mut cache = cache;
                apply_cache(items, &mut cache);
                self.phase = Phase::Download;
                Ok(UpdateSuccess::FetchCache)
            },
            Err(_) => {
                self.phase = Phase::Failed;
                Err(RunError::MalformedCache)
            },
        }
    }

    /// The cache file could not be fetched: the run fails.
    pub fn cache_unavailable(&mut self) -> (r: RunError)
        requires
            old(self).spec_phase() == Phase::FetchCache,
        ensures
            r == RunError::CacheUnavailable,
            final(self).spec_phase() == Phase::Failed,
            final(self).spec_phase() == next_phase(
                old(self).spec_phase(),
                old(self).spec_use_cache(),
                RunEvent::CacheUnavailable,
            ),
            final(self).spec_use_cache() == old(self).spec_use_cache(),
    {
        self.phase = Phase::Failed;
        RunError::CacheUnavailable
    }

    /// The work on an item failed: so does the run.
    pub fn item_failed(&mut self, error: PipelineError) -> (r: RunError)
        ensures
            r == RunError::Item(error),
            final(self).spec_phase() == Phase::Failed,
            final(self).spec_phase() == next_phase(
                old(self).spec_phase(),
                old(self).spec_use_cache(),
                RunEvent::ItemFailed,
            ),
            final(self).spec_use_cache() == old(self).spec_use_cache(),
    {
        self.phase = Phase::Failed;
        RunError::Item(error)
    }

    /// Every item is saved: the run is complete.
    pub fn downloads_complete(&mut self) -> (r: UpdateSuccess)
        requires
            old(self).spec_phase() == Phase::Download,
        ensures
            r == UpdateSuccess::Complete,
            final(self).spec_phase() == Phase::Finished,
            final(self).spec_phase() == next_phase(
                old(self).spec_phase(),
                old(self).spec_use_cache(),
                RunEvent::DownloadsComplete,
            ),
            final(self).spec_use_cache() == old(self).spec_use_cache(),
    {
        self.phase = Phase::Finished;
        UpdateSuccess::Complete
    }
}

} // verus!
