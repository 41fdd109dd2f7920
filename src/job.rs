//! The scrape job as a state machine.
//!
//! The job never performs I/O itself. Each call of [`ScrapeJob::step`] hands it
//! the outcome of the previous action (and whether cancellation has been
//! requested); it answers with the notices to publish and the next action to
//! perform. The host performs the action and reports back. Cancellation is
//! honoured at the checkpoints: before each page fetch, before each listing,
//! before each batch and before each enrichment item.
use vstd::prelude::*;
use crate::client::DiscogsClient;
use crate::types::ScraperError;

verus! {

/// Listings requested per inventory page.
pub const PAGE_SIZE: u32 = 100;

/// Releases enriched per batch when the caller gives no batch size.
pub const DEFAULT_BATCH_SIZE: u32 = 10;

/// Inventory progress is reported whenever the processed count is a multiple
/// of this.
pub const PROGRESS_INTERVAL: u32 = 10;

/// Counters accumulated across both phases of a run.
#[derive(Debug, Clone, Copy, PartialEq, Eq)]
pub struct ScrapeResult {
    pub albums_added: u32,
    pub albums_updated: u32,
    pub total_items: u32,
}

/// Where the job stands: before the start, waiting for the outcome of an
/// action, or finished.
#[derive(Debug, Clone, Copy, PartialEq, Eq)]
pub enum Stage {
    Ready,
    AwaitPage,
    AwaitExists,
    AwaitSave,
    AwaitStored,
    AwaitRelease,
    AwaitEnrich,
    AwaitPause,
    Completed,
    Cancelled,
    Failed,
}

#[derive(Debug, Clone, Copy, PartialEq, Eq)]
pub enum ProgressPhase {
    Inventory,
    Enrichment,
}

/// The per-item step that failed without stopping the run.
#[derive(Debug, Clone, Copy, PartialEq, Eq)]
pub enum FailedStep {
    CheckAlbum,
    SaveAlbum,
    FetchRelease,
    UpdateRelease,
}

/// A best-effort event for the host to publish.
#[derive(Debug, Clone, PartialEq)]
pub enum Notice {
    Started { limit: Option<u32> },
    /// `batch` is the 1-based inclusive range of the batch just finished.
    Progress { phase: ProgressPhase, current: u64, total: u64, batch: Option<(u64, u64)> },
    /// The listing at `index` of the current page created a new album.
    ItemSaved { release_id: u64, index: usize },
    Failure { step: FailedStep, release_id: u64, error: ScraperError },
    Completed(ScrapeResult),
}

/// What the job needs to know of one inventory page.
#[derive(Debug, Clone, PartialEq)]
pub struct PageSummary {
    /// Release ids of the page's listings, in page order.
    pub release_ids: Vec<u64>,
    /// Inventory size reported by the remote side.
    pub items: u32,
    /// Number of pages reported by the remote side.
    pub pages: u32,
}

/// The outcome of the previous action, as reported by the host.
#[derive(Debug)]
pub enum Outcome {
    Begin,
    Page(Result<PageSummary, ScraperError>),
    Found(Result<bool, ScraperError>),
    Stored(Result<(), ScraperError>),
    Fetched(Result<(), ScraperError>),
    Resumed,
}

/// The next thing the host has to do.
#[derive(Debug, Clone, PartialEq)]
pub enum Action {
    FetchPage { page: u32, per_page: u32 },
    /// Probe whether the album of the listing exists (inventory phase).
    CheckExists { release_id: u64 },
    /// Upsert the listing at `index` of the current page.
    SaveListing { release_id: u64, index: usize },
    /// Probe whether the album exists before enriching it.
    CheckStored { release_id: u64 },
    FetchRelease { release_id: u64 },
    /// Write the fetched release over its album.
    Enrich { release_id: u64 },
    /// Courtesy delay between two batches.
    Pause,
    Finish(ScrapeResult),
    Abort(ScraperError),
}

/// The notices and the action produced by one step.
pub struct Step {
    pub notices: Vec<Notice>,
    pub action: Action,
}

/// The mathematical state of a job.
pub struct JobModel {
    pub token: Seq<char>,
    pub limit: Option<u32>,
    pub batch_size: u32,
    pub stage: Stage,
    pub page: u32,
    pub pages: u32,
    pub processed: u32,
    pub total_items: u32,
    pub page_ids: Seq<u64>,
    pub pos: usize,
    pub release_ids: Seq<u64>,
    pub albums_added: u32,
    pub albums_updated: u32,
    pub batch_start: usize,
    pub batch_end: usize,
    pub cursor: usize,
}

pub type Transition = (JobModel, Seq<Notice>, Action);

/// The most listings one run processes: the limit, or else the largest count
/// that the result can carry.
pub open spec fn cap(limit: Option<u32>) -> u32 {
    match limit {
        Some(n) => n,
        None => u32::MAX,
    }
}

pub open spec fn initial_model(token: Seq<char>, limit: Option<u32>, batch_size: u32) -> JobModel {
    JobModel {
        token,
        limit,
        batch_size,
        stage: Stage::Ready,
        page: 1,
        pages: 0,
        processed: 0,
        total_items: 0,
        page_ids: Seq::empty(),
        pos: 0,
        release_ids: Seq::empty(),
        albums_added: 0,
        albums_updated: 0,
        batch_start: 0,
        batch_end: 0,
        cursor: 0,
    }
}

pub open spec fn result_of(m: JobModel) -> ScrapeResult {
    ScrapeResult {
        albums_added: m.albums_added,
        albums_updated: m.albums_updated,
        total_items: m.total_items,
    }
}

pub open spec fn is_terminal(s: Stage) -> bool {
    s == Stage::Completed || s == Stage::Cancelled || s == Stage::Failed
}

/// Which outcome each stage waits for.
pub open spec fn accepts(s: Stage, o: Outcome) -> bool {
    match s {
        Stage::Ready => o is Begin,
        Stage::AwaitPage => o is Page,
        Stage::AwaitExists => o is Found,
        Stage::AwaitSave => o is Stored,
        Stage::AwaitStored => o is Found,
        Stage::AwaitRelease => o is Fetched,
        Stage::AwaitEnrich => o is Stored,
        Stage::AwaitPause => o is Resumed,
        _ => false,
    }
}

/// The invariant over the counters and cursors, whatever the stage.
pub open spec fn wf_data(m: JobModel) -> bool {
    &&& m.batch_size >= 1
    &&& m.page >= 1
    &&& m.processed <= cap(m.limit)
    &&& m.release_ids.len() == m.processed
    &&& m.albums_added <= m.processed
    &&& m.pos <= m.page_ids.len()
    &&& m.batch_start <= m.cursor <= m.batch_end <= m.release_ids.len()
    &&& m.albums_updated <= m.cursor
}

/// The job's invariant: `wf_data`, and what each waiting stage needs.
pub open spec fn wf_model(m: JobModel) -> bool {
    &&& wf_data(m)
    &&& (m.stage == Stage::AwaitExists || m.stage == Stage::AwaitSave) ==> {
        m.pos < m.page_ids.len() && m.processed < cap(m.limit)
    }
    &&& (m.stage == Stage::AwaitStored || m.stage == Stage::AwaitRelease || m.stage
        == Stage::AwaitEnrich) ==> m.cursor < m.batch_end
    &&& (m.stage == Stage::Ready || m.stage == Stage::AwaitPage || m.stage == Stage::AwaitExists
        || m.stage == Stage::AwaitSave) ==> m.cursor == 0 && m.albums_updated == 0
    &&& m.stage == Stage::AwaitPause ==> {
        m.batch_start == m.cursor && m.batch_start < m.release_ids.len()
    }
}

pub open spec fn progress(phase: ProgressPhase, current: int, total: int) -> Notice {
    Notice::Progress { phase, current: current as u64, total: total as u64, batch: None }
}

pub open spec fn abort_cancelled(m: JobModel, ns: Seq<Notice>) -> Transition {
    (JobModel { stage: Stage::Cancelled, ..m }, ns, Action::Abort(ScraperError::Cancelled))
}

/// Checkpoint, then fetch page `m.page`.
pub open spec fn fetch_page(m: JobModel, ns: Seq<Notice>, cancel: bool) -> Transition {
    if cancel {
        abort_cancelled(m, ns)
    } else {
        (
            JobModel { stage: Stage::AwaitPage, ..m },
            ns,
            Action::FetchPage { page: m.page, per_page: PAGE_SIZE },
        )
    }
}

pub open spec fn finish(m: JobModel, ns: Seq<Notice>) -> Transition {
    (
        JobModel { stage: Stage::Completed, ..m },
        ns.push(Notice::Completed(result_of(m))),
        Action::Finish(result_of(m)),
    )
}

/// Within the current batch: checkpoint and probe the next release, or close
/// the batch and pause before the next one, or finish.
pub open spec fn next_item(m: JobModel, ns: Seq<Notice>, cancel: bool) -> Transition {
    if m.cursor < m.batch_end {
        if cancel {
            abort_cancelled(m, ns)
        } else {
            (
                JobModel { stage: Stage::AwaitStored, ..m },
                ns,
                Action::CheckStored { release_id: m.release_ids[m.cursor as int] },
            )
        }
    } else {
        let ns2 = ns.push(
            Notice::Progress {
                phase: ProgressPhase::Enrichment,
                current: m.cursor as u64,
                total: m.release_ids.len() as u64,
                batch: Some(((m.batch_start + 1) as u64, m.batch_end as u64)),
            },
        );
        let m2 = JobModel { batch_start: m.batch_end, ..m };
        if m2.batch_start < m2.release_ids.len() {
            (JobModel { stage: Stage::AwaitPause, ..m2 }, ns2, Action::Pause)
        } else {
            finish(m2, ns2)
        }
    }
}

pub open spec fn batch_end_of(start: usize, size: u32, len: nat) -> usize {
    if len - start <= size {
        len as usize
    } else {
        (start + size) as usize
    }
}

/// Checkpoint, then open the batch that starts at `m.batch_start`; or finish
/// when no release is left.
pub open spec fn next_batch(m: JobModel, ns: Seq<Notice>, cancel: bool) -> Transition {
    if m.batch_start < m.release_ids.len() {
        if cancel {
            abort_cancelled(m, ns)
        } else {
            next_item(
                JobModel {
                    batch_end: batch_end_of(m.batch_start, m.batch_size, m.release_ids.len()),
                    ..m
                },
                ns,
                cancel,
            )
        }
    } else {
        finish(m, ns)
    }
}

/// Close the inventory phase and open the enrichment phase.
pub open spec fn end_inventory(m: JobModel, ns: Seq<Notice>, cancel: bool) -> Transition {
    let ns2 = if m.processed % PROGRESS_INTERVAL != 0 && m.processed != m.total_items {
        ns.push(progress(ProgressPhase::Inventory, m.processed as int, m.total_items as int))
    } else {
        ns
    };
    let ns3 = ns2.push(progress(ProgressPhase::Enrichment, 0, m.release_ids.len() as int));
    next_batch(JobModel { batch_start: 0, batch_end: 0, cursor: 0, ..m }, ns3, cancel)
}

/// Stop at the limit; else checkpoint and probe the next listing of the page;
/// else move to the next page, or close the phase after the last one.
pub open spec fn next_listing(m: JobModel, ns: Seq<Notice>, cancel: bool) -> Transition {
    if m.processed >= cap(m.limit) {
        end_inventory(m, ns, cancel)
    } else if m.pos < m.page_ids.len() {
        if cancel {
            abort_cancelled(m, ns)
        } else {
            (
                JobModel { stage: Stage::AwaitExists, ..m },
                ns,
                Action::CheckExists { release_id: m.page_ids[m.pos as int] },
            )
        }
    } else if m.page >= m.pages {
        end_inventory(m, ns, cancel)
    } else {
        fetch_page(JobModel { page: (m.page + 1) as u32, ..m }, ns, cancel)
    }
}

/// Count the current listing as processed (and as added when `saved`), then
/// go on.
pub open spec fn listing_done(m: JobModel, ns: Seq<Notice>, saved: bool, cancel: bool) -> Transition {
    let processed = (m.processed + 1) as u32;
    let m2 = JobModel {
        processed,
        albums_added: if saved { (m.albums_added + 1) as u32 } else { m.albums_added },
        pos: (m.pos + 1) as usize,
        release_ids: m.release_ids.push(m.page_ids[m.pos as int]),
        ..m
    };
    let ns2 = if processed % PROGRESS_INTERVAL == 0 || processed == m.total_items {
        ns.push(progress(ProgressPhase::Inventory, processed as int, m.total_items as int))
    } else {
        ns
    };
    next_listing(m2, ns2, cancel)
}

/// Count the current release as handled (and as enriched when `enriched`),
/// then go on.
pub open spec fn item_done(m: JobModel, ns: Seq<Notice>, enriched: bool, cancel: bool) -> Transition {
    next_item(
        JobModel {
            cursor: (m.cursor + 1) as usize,
            albums_updated: if enriched { (m.albums_updated + 1) as u32 } else { m.albums_updated },
            ..m
        },
        ns,
        cancel,
    )
}

pub open spec fn failure(step: FailedStep, release_id: u64, error: ScraperError) -> Notice {
    Notice::Failure { step, release_id, error }
}

/// One step of the job: the state after the outcome `o`, with the notices to
/// publish and the next action. Persistence failures and release fetch
/// failures become `Failure` notices; only a failed page fetch fails the run.
pub open spec fn transition(m: JobModel, o: Outcome, cancel: bool) -> Transition {
    let empty = Seq::<Notice>::empty();
    match m.stage {
        Stage::Ready => fetch_page(m, seq![Notice::Started { limit: m.limit }], cancel),
        Stage::AwaitPage => match o {
            Outcome::Page(Ok(s)) => {
                let first = m.page == 1;
                let total = if first { s.items } else { m.total_items };
                let ns = if first {
                    seq![progress(ProgressPhase::Inventory, 0, total as int)]
                } else {
                    empty
                };
                next_listing(
                    JobModel { total_items: total, pages: s.pages, page_ids: s.release_ids@, pos: 0, ..m },
                    ns,
                    cancel,
                )
            },
            Outcome::Page(Err(e)) => (JobModel { stage: Stage::Failed, ..m }, empty, Action::Abort(e)),
            _ => (m, empty, Action::Pause),
        },
        Stage::AwaitExists => {
            let id = m.page_ids[m.pos as int];
            match o {
                Outcome::Found(Ok(false)) => (
                    JobModel { stage: Stage::AwaitSave, ..m },
                    empty,
                    Action::SaveListing { release_id: id, index: m.pos },
                ),
                Outcome::Found(Ok(true)) => listing_done(m, empty, false, cancel),
                Outcome::Found(Err(e)) => listing_done(m, seq![failure(FailedStep::CheckAlbum, id, e)], false, cancel),
                _ => (m, empty, Action::Pause),
            }
        },
        Stage::AwaitSave => {
            let id = m.page_ids[m.pos as int];
            match o {
                Outcome::Stored(Ok(())) => listing_done(
                    m,
                    seq![Notice::ItemSaved { release_id: id, index: m.pos }],
                    true,
                    cancel,
                ),
                Outcome::Stored(Err(e)) => listing_done(m, seq![failure(FailedStep::SaveAlbum, id, e)], false, cancel),
                _ => (m, empty, Action::Pause),
            }
        },
        Stage::AwaitStored => {
            let id = m.release_ids[m.cursor as int];
            match o {
                Outcome::Found(Ok(true)) => (
                    JobModel { stage: Stage::AwaitRelease, ..m },
                    empty,
                    Action::FetchRelease { release_id: id },
                ),
                Outcome::Found(Ok(false)) => item_done(m, empty, false, cancel),
                Outcome::Found(Err(e)) => item_done(m, seq![failure(FailedStep::CheckAlbum, id, e)], false, cancel),
                _ => (m, empty, Action::Pause),
            }
        },
        Stage::AwaitRelease => {
            let id = m.release_ids[m.cursor as int];
            match o {
                Outcome::Fetched(Ok(())) => (
                    JobModel { stage: Stage::AwaitEnrich, ..m },
                    empty,
                    Action::Enrich { release_id: id },
                ),
                Outcome::Fetched(Err(e)) => item_done(m, seq![failure(FailedStep::FetchRelease, id, e)], false, cancel),
                _ => (m, empty, Action::Pause),
            }
        },
        Stage::AwaitEnrich => {
            let id = m.release_ids[m.cursor as int];
            match o {
                Outcome::Stored(Ok(())) => item_done(m, empty, true, cancel),
                Outcome::Stored(Err(e)) => item_done(m, seq![failure(FailedStep::UpdateRelease, id, e)], false, cancel),
                _ => (m, empty, Action::Pause),
            }
        },
        Stage::AwaitPause => next_batch(m, empty, cancel),
        _ => (m, empty, Action::Pause),
    }
}

/// Cancelling before the first checkpoint ends the run with `Cancelled`
/// before any page is fetched or any listing is processed.
pub proof fn lemma_cancel_before_start(token: Seq<char>, limit: Option<u32>, batch_size: u32)
    requires
        batch_size >= 1,
    ensures
        ({
            let (m, ns, a) = transition(initial_model(token, limit, batch_size), Outcome::Begin, true);
            &&& a == Action::Abort(ScraperError::Cancelled)
            &&& m.stage == Stage::Cancelled
            &&& m.processed == 0
            &&& m.release_ids.len() == 0
            &&& ns == seq![Notice::Started { limit }]
        }),
{
}

/// Once cancellation is requested, no new page, listing or release is
/// started: a step either ends the run or carries on with the item already
/// under way.
pub proof fn lemma_cancel_starts_no_new_work(m: JobModel, o: Outcome)
    requires
        wf_model(m),
        accepts(m.stage, o),
    ensures
        ({
            let a = transition(m, o, true).2;
            !(a is FetchPage) && !(a is CheckExists) && !(a is CheckStored)
        }),
{
}

/// Cancellation observed between two batches ends the run with `Cancelled`;
/// what the earlier batches enriched stays counted.
pub proof fn lemma_cancel_between_batches(m: JobModel)
    requires
        wf_model(m),
        m.stage == Stage::AwaitPause,
    ensures
        ({
            let (m2, ns, a) = transition(m, Outcome::Resumed, true);
            &&& a == Action::Abort(ScraperError::Cancelled)
            &&& m2.stage == Stage::Cancelled
            &&& m2.albums_added == m.albums_added
            &&& m2.albums_updated == m.albums_updated
            &&& ns.len() == 0
        }),
{
}

/// A failed persistence step (existence probe, listing upsert or release
/// update) is published as a `Failure` notice that carries the error, leaves
/// the counters where they were, and does not fail the run.
pub proof fn lemma_persistence_failure_absorbed(m: JobModel, o: Outcome, e: ScraperError, cancel: bool)
    requires
        wf_model(m),
        accepts(m.stage, o),
        o == Outcome::Found(Err(e)) || o == Outcome::Stored(Err(e)),
    ensures
        ({
            let (m2, ns, a) = transition(m, o, cancel);
            &&& ns.len() >= 1
            &&& ns[0] matches Notice::Failure { error, .. } && error == e
            &&& m2.albums_added == m.albums_added
            &&& m2.albums_updated == m.albums_updated
            &&& m2.stage != Stage::Failed
            &&& (a is Abort ==> a == Action::Abort(ScraperError::Cancelled))
        }),
{
}

/// Only a failed inventory page fetch fails the run.
pub proof fn lemma_only_page_fetch_fails(m: JobModel, o: Outcome, cancel: bool)
    requires
        wf_model(m),
        accepts(m.stage, o),
    ensures
        transition(m, o, cancel).0.stage == Stage::Failed ==> m.stage == Stage::AwaitPage
            && o is Page && o->Page_0 is Err,
{
}

/// The job driven from `m` through `steps` (each an outcome and the
/// cancellation flag as sampled): the final state and all notices, in order.
pub open spec fn run(m: JobModel, steps: Seq<(Outcome, bool)>) -> (JobModel, Seq<Notice>)
    decreases steps.len(),
{
    if steps.len() == 0 {
        (m, Seq::empty())
    } else {
        let t = transition(m, steps[0].0, steps[0].1);
        let r = run(t.0, steps.drop_first());
        (r.0, t.1 + r.1)
    }
}

/// Whether each outcome of `steps` is the one its stage waits for.
pub open spec fn well_driven(m: JobModel, steps: Seq<(Outcome, bool)>) -> bool
    decreases steps.len(),
{
    steps.len() == 0 || (accepts(m.stage, steps[0].0) && well_driven(
        transition(m, steps[0].0, steps[0].1).0,
        steps.drop_first(),
    ))
}

/// Whether `o` reports a successful listing upsert.
pub open spec fn is_save_ok(s: Stage, o: Outcome) -> bool {
    s == Stage::AwaitSave && o matches Outcome::Stored(Ok(_))
}

/// The number of listing upserts in `steps` that succeeded.
pub open spec fn saves_ok(m: JobModel, steps: Seq<(Outcome, bool)>) -> nat
    decreases steps.len(),
{
    if steps.len() == 0 {
        0
    } else {
        (if is_save_ok(m.stage, steps[0].0) {
            1nat
        } else {
            0nat
        }) + saves_ok(transition(m, steps[0].0, steps[0].1).0, steps.drop_first())
    }
}

/// A failed existence probe, write or release fetch.
pub open spec fn is_item_error(o: Outcome) -> bool {
    match o {
        Outcome::Found(Err(_)) => true,
        Outcome::Stored(Err(_)) => true,
        Outcome::Fetched(Err(_)) => true,
        _ => false,
    }
}

pub open spec fn item_errors(steps: Seq<(Outcome, bool)>) -> nat
    decreases steps.len(),
{
    if steps.len() == 0 {
        0
    } else {
        (if is_item_error(steps[0].0) {
            1nat
        } else {
            0nat
        }) + item_errors(steps.drop_first())
    }
}

/// The number of `Failure` notices in `ns`.
pub open spec fn failure_count(ns: Seq<Notice>) -> nat
    decreases ns.len(),
{
    if ns.len() == 0 {
        0
    } else {
        (if ns[0] is Failure {
            1nat
        } else {
            0nat
        }) + failure_count(ns.drop_first())
    }
}

proof fn lemma_failure_count_add(a: Seq<Notice>, b: Seq<Notice>)
    ensures
        failure_count(a + b) == failure_count(a) + failure_count(b),
    decreases a.len(),
{
    if a.len() > 0 {
        assert((a + b).drop_first() =~= a.drop_first() + b);
        lemma_failure_count_add(a.drop_first(), b);
    } else {
        assert(a + b =~= b);
    }
}

proof fn lemma_failure_count_tail(ns: Seq<Notice>)
    requires
        forall|i: int| 0 < i < ns.len() ==> !(#[trigger] ns[i] is Failure),
    ensures
        failure_count(ns) == (if ns.len() > 0 && ns[0] is Failure { 1nat } else { 0nat }),
    decreases ns.len(),
{
    if ns.len() > 1 {
        let rest = ns.drop_first();
        assert forall|i: int| 0 < i < rest.len() implies !(#[trigger] rest[i] is Failure) by {
            assert(rest[i] == ns[i + 1]);
        }
        lemma_failure_count_tail(rest);
        assert(rest[0] == ns[1]);
        assert(!(rest[0] is Failure));
    } else if ns.len() == 1 {
        assert(ns.drop_first().len() == 0);
        assert(failure_count(ns.drop_first()) == 0);
    }
}

#[verifier::spinoff_prover]
#[verifier::rlimit(100)]
proof fn lemma_step_shape(m: JobModel, o: Outcome, cancel: bool)
    requires
        wf_model(m),
        accepts(m.stage, o),
    ensures
        ({
            let (m2, ns, a) = transition(m, o, cancel);
            &&& wf_model(m2)
            &&& m2.albums_added == m.albums_added + (if is_save_ok(m.stage, o) {
                1nat
            } else {
                0nat
            })
            &&& forall|i: int| 0 < i < ns.len() ==> !(#[trigger] ns[i] is Failure)
            &&& (is_item_error(o) <==> (ns.len() > 0 && ns[0] is Failure))
        }),
{
    let t = transition(m, o, cancel);
    if m.stage == Stage::Ready {
        assert(wf_model(t.0));
        assert(t.0.albums_added == m.albums_added);
    } else if m.stage == Stage::AwaitPage {
        assert(wf_model(t.0));
        assert(t.0.albums_added == m.albums_added);
    } else if m.stage == Stage::AwaitExists {
        assert(wf_model(t.0));
        assert(t.0.albums_added == m.albums_added);
    } else if m.stage == Stage::AwaitSave {
        assert(wf_model(t.0));
        if is_save_ok(m.stage, o) {
            assert(t.0.albums_added == m.albums_added + 1);
        } else {
            assert(t.0.albums_added == m.albums_added);
        }
    } else if m.stage == Stage::AwaitStored {
        assert(wf_model(t.0));
    } else if m.stage == Stage::AwaitRelease {
        assert(wf_model(t.0));
    } else if m.stage == Stage::AwaitEnrich {
        assert(wf_model(t.0));
    } else {
        assert(wf_model(t.0));
    }
}

/// One step keeps the invariant, counts a listing as added exactly when its
/// upsert succeeded, and publishes one `Failure` notice exactly when the
/// outcome is a failed probe, write or release fetch.
pub proof fn lemma_step_counts(m: JobModel, o: Outcome, cancel: bool)
    requires
        wf_model(m),
        accepts(m.stage, o),
    ensures
        ({
            let (m2, ns, a) = transition(m, o, cancel);
            &&& wf_model(m2)
            &&& m2.albums_added == m.albums_added + (if is_save_ok(m.stage, o) {
                1nat
            } else {
                0nat
            })
            &&& failure_count(ns) == (if is_item_error(o) {
                1nat
            } else {
                0nat
            })
        }),
{
    lemma_step_shape(m, o, cancel);
    lemma_failure_count_tail(transition(m, o, cancel).1);
}

/// Over any run, the albums added are the listing upserts that succeeded,
/// and the `Failure` notices are exactly one per failed probe, write or
/// release fetch; none of them stops the run.
pub proof fn lemma_run_counts(m: JobModel, steps: Seq<(Outcome, bool)>)
    requires
        wf_model(m),
        well_driven(m, steps),
    ensures
        run(m, steps).0.albums_added == m.albums_added + saves_ok(m, steps),
        failure_count(run(m, steps).1) == item_errors(steps),
        wf_model(run(m, steps).0),
    decreases steps.len(),
{
    if steps.len() > 0 {
        let t = transition(m, steps[0].0, steps[0].1);
        lemma_step_counts(m, steps[0].0, steps[0].1);
        lemma_run_counts(t.0, steps.drop_first());
        lemma_failure_count_add(t.1, run(t.0, steps.drop_first()).1);
    }
}

/// Without a cancellation request a step never cancels the run.
pub proof fn lemma_no_request_no_cancel(m: JobModel, o: Outcome)
    requires
        wf_model(m),
        accepts(m.stage, o),
    ensures
        transition(m, o, false).0.stage != Stage::Cancelled,
{
}

/// A run in which no page fetch fails and no cancellation is requested ends
/// neither failed nor cancelled, whatever probes, writes or release fetches
/// failed on the way.
pub proof fn lemma_run_not_aborted(m: JobModel, steps: Seq<(Outcome, bool)>)
    requires
        wf_model(m),
        well_driven(m, steps),
        m.stage != Stage::Failed,
        m.stage != Stage::Cancelled,
        forall|i: int| 0 <= i < steps.len() ==> !(#[trigger] steps[i]).1 && !(steps[i].0 matches Outcome::Page(Err(_))),
    ensures
        run(m, steps).0.stage != Stage::Failed,
        run(m, steps).0.stage != Stage::Cancelled,
    decreases steps.len(),
{
    if steps.len() > 0 {
        let o = steps[0].0;
        assert(!steps[0].1);
        lemma_step_counts(m, o, false);
        lemma_only_page_fetch_fails(m, o, false);
        lemma_no_request_no_cancel(m, o);
        let rest = steps.drop_first();
        assert forall|i: int| 0 <= i < rest.len() implies !(#[trigger] rest[i]).1 && !(rest[i].0 matches Outcome::Page(Err(_))) by {
            assert(rest[i] == steps[i + 1]);
        }
        lemma_run_not_aborted(transition(m, o, false).0, rest);
    }
}

/// A scrape run in progress: the state machine of [`transition`].
pub struct ScrapeJob {
    client: DiscogsClient,
    limit: Option<u32>,
    batch_size: u32,
    stage: Stage,
    page: u32,
    pages: u32,
    processed: u32,
    total_items: u32,
    page_ids: Vec<u64>,
    pos: usize,
    release_ids: Vec<u64>,
    albums_added: u32,
    albums_updated: u32,
    batch_start: usize,
    batch_end: usize,
    cursor: usize,
}

impl View for ScrapeJob {
    type V = JobModel;

    closed spec fn view(&self) -> JobModel {
        JobModel {
            token: self.client@,
            limit: self.limit,
            batch_size: self.batch_size,
            stage: self.stage,
            page: self.page,
            pages: self.pages,
            processed: self.processed,
            total_items: self.total_items,
            page_ids: self.page_ids@,
            pos: self.pos,
            release_ids: self.release_ids@,
            albums_added: self.albums_added,
            albums_updated: self.albums_updated,
            batch_start: self.batch_start,
            batch_end: self.batch_end,
            cursor: self.cursor,
        }
    }
}

impl ScrapeJob {
    /// A job that has not started yet, for the resolved access token.
    /// An absent or empty token is `MissingToken`. `batch_size` defaults to
    /// `DEFAULT_BATCH_SIZE`; a batch size of zero is not allowed.
    pub fn new(token: Option<String>, limit: Option<u32>, batch_size: Option<u32>) -> (r: Result<
        ScrapeJob,
        ScraperError,
    >)
        requires
            batch_size != Some(0u32),
        ensures
            (token matches Some(t) && t@.len() > 0) ==> (r matches Ok(j) && j@ == initial_model(
                token->Some_0@,
                limit,
                match batch_size {
                    Some(b) => b,
                    None => DEFAULT_BATCH_SIZE,
                },
            ) && wf_model(j@)),
            !(token matches Some(t) && t@.len() > 0) ==> r == Err::<ScrapeJob, ScraperError>(
                ScraperError::MissingToken,
            ),
    {
        let client = match token {
            Some(t) => match DiscogsClient::new(t) {
                Ok(c) => c,
                Err(e) => {
                    return Err(e);
                },
            },
            None => {
                return Err(ScraperError::MissingToken);
            },
        };
        let size = match batch_size {
            Some(b) => b,
            None => DEFAULT_BATCH_SIZE,
        };
        Ok(
            ScrapeJob {
                client,
                limit,
                batch_size: size,
                stage: Stage::Ready,
                page: 1,
                pages: 0,
                processed: 0,
                total_items: 0,
                page_ids: Vec::new(),
                pos: 0,
                release_ids: Vec::new(),
                albums_added: 0,
                albums_updated: 0,
                batch_start: 0,
                batch_end: 0,
                cursor: 0,
            },
        )
    }

    /// The catalog client for the job's token.
    pub fn client(&self) -> (c: &DiscogsClient)
        ensures
            c@ == self@.token,
    {
        &self.client
    }

    pub fn stage(&self) -> (r: Stage)
        ensures
            r == self@.stage,
    {
        self.stage
    }

    /// The counters so far.
    pub fn result(&self) -> (r: ScrapeResult)
        ensures
            r == result_of(self@),
    {
        ScrapeResult {
            albums_added: self.albums_added,
            albums_updated: self.albums_updated,
            total_items: self.total_items,
        }
    }

    /// Whether `step` takes `o` in the current stage.
    pub fn accepts(&self, o: &Outcome) -> (r: bool)
        ensures
            r == accepts(self@.stage, *o),
    {
        match self.stage {
            Stage::Ready => matches!(o, Outcome::Begin),
            Stage::AwaitPage => matches!(o, Outcome::Page(_)),
            Stage::AwaitExists => matches!(o, Outcome::Found(_)),
            Stage::AwaitSave => matches!(o, Outcome::Stored(_)),
            Stage::AwaitStored => matches!(o, Outcome::Found(_)),
            Stage::AwaitRelease => matches!(o, Outcome::Fetched(_)),
            Stage::AwaitEnrich => matches!(o, Outcome::Stored(_)),
            Stage::AwaitPause => matches!(o, Outcome::Resumed),
            _ => false,
        }
    }

    /// Take the outcome of the previous action and decide what comes next.
    /// `cancel_requested` is the cancellation flag as sampled now; it is only
    /// consulted at checkpoints.
    pub fn step(&mut self, outcome: Outcome, cancel_requested: bool) -> (r: Step)
        requires
            wf_model(old(self)@),
            accepts(old(self)@.stage, outcome),
        ensures
            wf_model(final(self)@),
            (final(self)@, r.notices@, r.action) == transition(old(self)@, outcome, cancel_requested),
    {
        let cancel = cancel_requested;
        let mut ns: Vec<Notice> = Vec::new();
        let action = match self.stage {
            Stage::Ready => {
                ns.push(Notice::Started { limit: self.limit });
                self.fetch_page(&mut ns, cancel)
            },
            Stage::AwaitPage => match outcome {
                Outcome::Page(Ok(summary)) => {
                    if self.page == 1 {
                        self.total_items = summary.items;
                        ns.push(
                            Self::progress_notice(ProgressPhase::Inventory, 0, summary.items as u64),
                        );
                    }
                    self.pages = summary.pages;
                    self.page_ids = summary.release_ids;
                    self.pos = 0;
                    self.next_listing(&mut ns, cancel)
                },
                Outcome::Page(Err(e)) => {
                    self.stage = Stage::Failed;
                    Action::Abort(e)
                },
                _ => Action::Pause,
            },
            Stage::AwaitExists => match outcome {
                Outcome::Found(Ok(false)) => {
                    self.stage = Stage::AwaitSave;
                    Action::SaveListing { release_id: self.page_ids[self.pos], index: self.pos }
                },
                Outcome::Found(Ok(true)) => self.listing_done(&mut ns, false, cancel),
                Outcome::Found(Err(e)) => {
                    let id = self.page_ids[self.pos];
                    ns.push(Notice::Failure { step: FailedStep::CheckAlbum, release_id: id, error: e });
                    self.listing_done(&mut ns, false, cancel)
                },
                _ => Action::Pause,
            },
            Stage::AwaitSave => {
                let id = self.page_ids[self.pos];
                match outcome {
                    Outcome::Stored(Ok(())) => {
                        ns.push(Notice::ItemSaved { release_id: id, index: self.pos });
                        self.listing_done(&mut ns, true, cancel)
                    },
                    Outcome::Stored(Err(e)) => {
                        ns.push(Notice::Failure { step: FailedStep::SaveAlbum, release_id: id, error: e });
                        self.listing_done(&mut ns, false, cancel)
                    },
                    _ => Action::Pause,
                }
            },
            Stage::AwaitStored => {
                let id = self.release_ids[self.cursor];
                match outcome {
                    Outcome::Found(Ok(true)) => {
                        self.stage = Stage::AwaitRelease;
                        Action::FetchRelease { release_id: id }
                    },
                    Outcome::Found(Ok(false)) => self.item_done(&mut ns, false, cancel),
                    Outcome::Found(Err(e)) => {
                        ns.push(Notice::Failure { step: FailedStep::CheckAlbum, release_id: id, error: e });
                        self.item_done(&mut ns, false, cancel)
                    },
                    _ => Action::Pause,
                }
            },
            Stage::AwaitRelease => {
                let id = self.release_ids[self.cursor];
                match outcome {
                    Outcome::Fetched(Ok(())) => {
                        self.stage = Stage::AwaitEnrich;
                        Action::Enrich { release_id: id }
                    },
                    Outcome::Fetched(Err(e)) => {
                        ns.push(Notice::Failure { step: FailedStep::FetchRelease, release_id: id, error: e });
                        self.item_done(&mut ns, false, cancel)
                    },
                    _ => Action::Pause,
                }
            },
            Stage::AwaitEnrich => {
                let id = self.release_ids[self.cursor];
                match outcome {
                    Outcome::Stored(Ok(())) => self.item_done(&mut ns, true, cancel),
                    Outcome::Stored(Err(e)) => {
                        ns.push(Notice::Failure { step: FailedStep::UpdateRelease, release_id: id, error: e });
                        self.item_done(&mut ns, false, cancel)
                    },
                    _ => Action::Pause,
                }
            },
            Stage::AwaitPause => self.next_batch(&mut ns, cancel),
            _ => Action::Pause,
        };
        Step { notices: ns, action }
    }

    fn progress_notice(phase: ProgressPhase, current: u64, total: u64) -> (r: Notice)
        ensures
            r == progress(phase, current as int, total as int),
    {
        Notice::Progress { phase, current, total, batch: None }
    }

    fn abort_cancelled(&mut self, ns: &mut Vec<Notice>) -> (r: Action)
        requires
            wf_data(old(self)@),
        ensures
            (final(self)@, final(ns)@, r) == abort_cancelled(old(self)@, old(ns)@),
            wf_model(final(self)@),
    {
        self.stage = Stage::Cancelled;
        Action::Abort(ScraperError::Cancelled)
    }

    fn fetch_page(&mut self, ns: &mut Vec<Notice>, cancel: bool) -> (r: Action)
        requires
            wf_data(old(self)@),
            old(self)@.cursor == 0,
            old(self)@.albums_updated == 0,
        ensures
            (final(self)@, final(ns)@, r) == fetch_page(old(self)@, old(ns)@, cancel),
            wf_model(final(self)@),
    {
        if cancel {
            self.abort_cancelled(ns)
        } else {
            self.stage = Stage::AwaitPage;
            Action::FetchPage { page: self.page, per_page: PAGE_SIZE }
        }
    }

    fn finish(&mut self, ns: &mut Vec<Notice>) -> (r: Action)
        requires
            wf_data(old(self)@),
        ensures
            (final(self)@, final(ns)@, r) == finish(old(self)@, old(ns)@),
            wf_model(final(self)@),
    {
        self.stage = Stage::Completed;
        let res = self.result();
        ns.push(Notice::Completed(res));
        Action::Finish(res)
    }

    fn next_item(&mut self, ns: &mut Vec<Notice>, cancel: bool) -> (r: Action)
        requires
            wf_data(old(self)@),
        ensures
            (final(self)@, final(ns)@, r) == next_item(old(self)@, old(ns)@, cancel),
            wf_model(final(self)@),
    {
        if self.cursor < self.batch_end {
            if cancel {
                self.abort_cancelled(ns)
            } else {
                self.stage = Stage::AwaitStored;
                Action::CheckStored { release_id: self.release_ids[self.cursor] }
            }
        } else {
            ns.push(
                Notice::Progress {
                    phase: ProgressPhase::Enrichment,
                    current: self.cursor as u64,
                    total: self.release_ids.len() as u64,
                    batch: Some((self.batch_start as u64 + 1, self.batch_end as u64)),
                },
            );
            self.batch_start = self.batch_end;
            if self.batch_start < self.release_ids.len() {
                self.stage = Stage::AwaitPause;
                Action::Pause
            } else {
                self.finish(ns)
            }
        }
    }

    fn next_batch(&mut self, ns: &mut Vec<Notice>, cancel: bool) -> (r: Action)
        requires
            wf_data(old(self)@),
            old(self)@.cursor == old(self)@.batch_start,
        ensures
            (final(self)@, final(ns)@, r) == next_batch(old(self)@, old(ns)@, cancel),
            wf_model(final(self)@),
    {
        let len = self.release_ids.len();
        if self.batch_start < len {
            if cancel {
                self.abort_cancelled(ns)
            } else {
                let size = self.batch_size as usize;
                self.batch_end = if len - self.batch_start <= size {
                    len
                } else {
                    self.batch_start + size
                };
                self.next_item(ns, cancel)
            }
        } else {
            self.finish(ns)
        }
    }

    fn end_inventory(&mut self, ns: &mut Vec<Notice>, cancel: bool) -> (r: Action)
        requires
            wf_data(old(self)@),
            old(self)@.cursor == 0,
            old(self)@.albums_updated == 0,
        ensures
            (final(self)@, final(ns)@, r) == end_inventory(old(self)@, old(ns)@, cancel),
            wf_model(final(self)@),
    {
        if self.processed % PROGRESS_INTERVAL != 0 && self.processed != self.total_items {
            ns.push(
                Self::progress_notice(
                    ProgressPhase::Inventory,
                    self.processed as u64,
                    self.total_items as u64,
                ),
            );
        }
        ns.push(Self::progress_notice(ProgressPhase::Enrichment, 0, self.release_ids.len() as u64));
        self.batch_start = 0;
        self.batch_end = 0;
        self.cursor = 0;
        self.next_batch(ns, cancel)
    }

    fn next_listing(&mut self, ns: &mut Vec<Notice>, cancel: bool) -> (r: Action)
        requires
            wf_data(old(self)@),
            old(self)@.cursor == 0,
            old(self)@.albums_updated == 0,
        ensures
            (final(self)@, final(ns)@, r) == next_listing(old(self)@, old(ns)@, cancel),
            wf_model(final(self)@),
    {
        if self.processed >= match self.limit {
            Some(n) => n,
            None => u32::MAX,
        } {
            self.end_inventory(ns, cancel)
        } else if self.pos < self.page_ids.len() {
            if cancel {
                self.abort_cancelled(ns)
            } else {
                self.stage = Stage::AwaitExists;
                Action::CheckExists { release_id: self.page_ids[self.pos] }
            }
        } else if self.page >= self.pages {
            self.end_inventory(ns, cancel)
        } else {
            self.page = self.page + 1;
            self.fetch_page(ns, cancel)
        }
    }

    fn listing_done(&mut self, ns: &mut Vec<Notice>, saved: bool, cancel: bool) -> (r: Action)
        requires
            wf_data(old(self)@),
            old(self)@.cursor == 0,
            old(self)@.albums_updated == 0,
            old(self)@.pos < old(self)@.page_ids.len(),
            old(self)@.processed < cap(old(self)@.limit),
        ensures
            (final(self)@, final(ns)@, r) == listing_done(old(self)@, old(ns)@, saved, cancel),
            wf_model(final(self)@),
    {
        let id = self.page_ids[self.pos];
        assert(self.pos < self.page_ids.len());
        self.release_ids.push(id);
        self.processed = self.processed + 1;
        if saved {
            self.albums_added = self.albums_added + 1;
        }
        self.pos = self.pos + 1;
        if self.processed % PROGRESS_INTERVAL == 0 || self.processed == self.total_items {
            ns.push(
                Self::progress_notice(
                    ProgressPhase::Inventory,
                    self.processed as u64,
                    self.total_items as u64,
                ),
            );
        }
        self.next_listing(ns, cancel)
    }

    fn item_done(&mut self, ns: &mut Vec<Notice>, enriched: bool, cancel: bool) -> (r: Action)
        requires
            wf_data(old(self)@),
            old(self)@.cursor < old(self)@.batch_end,
        ensures
            (final(self)@, final(ns)@, r) == item_done(old(self)@, old(ns)@, enriched, cancel),
            wf_model(final(self)@),
    {
        self.cursor = self.cursor + 1;
        if enriched {
            self.albums_updated = self.albums_updated + 1;
        }
        self.next_item(ns, cancel)
    }
}

} // verus!
