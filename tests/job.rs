use discogs_scraper::job::{
    Action, FailedStep, Notice, Outcome, PageSummary, ProgressPhase, ScrapeJob, ScrapeResult, Stage,
};
use discogs_scraper::types::ScraperError;
use std::collections::HashSet;

fn new_job(limit: Option<u32>, batch_size: Option<u32>) -> ScrapeJob {
    ScrapeJob::new(Some("tok".to_string()), limit, batch_size).ok().unwrap()
}

/// A scripted remote side and store, answering the job's actions.
struct Host {
    pages: Vec<Vec<u64>>,
    items: u32,
    stored: HashSet<u64>,
    fail_save: HashSet<u64>,
    fail_fetch: HashSet<u64>,
    notices: Vec<Notice>,
    actions: Vec<Action>,
}

impl Host {
    fn new(pages: Vec<Vec<u64>>) -> Host {
        let items = pages.iter().map(|p| p.len() as u32).sum();
        Host {
            pages,
            items,
            stored: HashSet::new(),
            fail_save: HashSet::new(),
            fail_fetch: HashSet::new(),
            notices: Vec::new(),
            actions: Vec::new(),
        }
    }

    /// Runs the job to its end; `cancel_after` is the number of steps after
    /// which cancellation is requested.
    fn run(&mut self, job: &mut ScrapeJob, cancel_after: Option<usize>) -> Action {
        let mut outcome = Outcome::Begin;
        let mut steps = 0usize;
        loop {
            let cancel = cancel_after.map_or(false, |n| steps >= n);
            let step = job.step(outcome, cancel);
            steps += 1;
            self.notices.extend(step.notices);
            self.actions.push(step.action.clone());
            outcome = match step.action {
                Action::FetchPage { page, per_page } => {
                    assert_eq!(per_page, 100);
                    let ids = self.pages[(page - 1) as usize].clone();
                    Outcome::Page(Ok(PageSummary {
                        release_ids: ids,
                        items: self.items,
                        pages: self.pages.len() as u32,
                    }))
                }
                Action::CheckExists { release_id } | Action::CheckStored { release_id } => {
                    Outcome::Found(Ok(self.stored.contains(&release_id)))
                }
                Action::SaveListing { release_id, .. } => {
                    if self.fail_save.contains(&release_id) {
                        Outcome::Stored(Err(ScraperError::DatabaseError("disk full".to_string())))
                    } else {
                        self.stored.insert(release_id);
                        Outcome::Stored(Ok(()))
                    }
                }
                Action::FetchRelease { release_id } => {
                    if self.fail_fetch.contains(&release_id) {
                        Outcome::Fetched(Err(ScraperError::NotFound))
                    } else {
                        Outcome::Fetched(Ok(()))
                    }
                }
                Action::Enrich { .. } => Outcome::Stored(Ok(())),
                Action::Pause => Outcome::Resumed,
                Action::Finish(_) | Action::Abort(_) => return step.action,
            };
        }
    }

    fn failures(&self) -> usize {
        self.notices.iter().filter(|n| matches!(n, Notice::Failure { .. })).count()
    }
}

#[test]
fn happy_run_adds_and_enriches_every_listing() {
    let mut host = Host::new(vec![vec![1, 2, 3], vec![4, 5]]);
    let mut job = new_job(None, None);
    let end = host.run(&mut job, None);
    let expected = ScrapeResult { albums_added: 5, albums_updated: 5, total_items: 5 };
    assert_eq!(end, Action::Finish(expected));
    assert_eq!(job.stage(), Stage::Completed);
    assert_eq!(host.notices.first(), Some(&Notice::Started { limit: None }));
    assert_eq!(host.notices.last(), Some(&Notice::Completed(expected)));
    assert_eq!(host.failures(), 0);
}

#[test]
fn partial_failure_one_of_five_is_absorbed() {
    let mut host = Host::new(vec![vec![11, 12, 13, 14, 15]]);
    host.fail_save.insert(13);
    let mut job = new_job(None, None);
    let end = host.run(&mut job, None);
    match end {
        Action::Finish(r) => assert_eq!(r.albums_added, 4),
        other => panic!("run did not complete: {:?}", other),
    }
    assert_eq!(host.failures(), 1);
    assert!(host.notices.contains(&Notice::Failure {
        step: FailedStep::SaveAlbum,
        release_id: 13,
        error: ScraperError::DatabaseError("disk full".to_string()),
    }));
    // The album that failed to save is skipped, not enriched.
    assert!(!host.actions.contains(&Action::FetchRelease { release_id: 13 }));
}

#[test]
fn cancel_before_first_checkpoint() {
    let mut host = Host::new(vec![vec![1, 2]]);
    let mut job = new_job(Some(5), None);
    let end = host.run(&mut job, Some(0));
    assert_eq!(end, Action::Abort(ScraperError::Cancelled));
    assert_eq!(job.stage(), Stage::Cancelled);
    assert_eq!(host.actions.len(), 1);
    assert_eq!(job.result().albums_added, 0);
    assert_eq!(host.notices, vec![Notice::Started { limit: Some(5) }]);
}

#[test]
fn cancel_between_batches_keeps_earlier_batches() {
    let mut host = Host::new(vec![vec![1, 2, 3, 4, 5]]);
    for id in 1..=5 {
        host.stored.insert(id);
    }
    let mut job = new_job(None, Some(2));
    // Run to the first pause, then request cancellation.
    let mut outcome = Outcome::Begin;
    loop {
        let step = job.step(outcome, false);
        outcome = match step.action {
            Action::FetchPage { .. } => Outcome::Page(Ok(PageSummary {
                release_ids: vec![1, 2, 3, 4, 5],
                items: 5,
                pages: 1,
            })),
            Action::CheckExists { .. } | Action::CheckStored { .. } => Outcome::Found(Ok(true)),
            Action::FetchRelease { .. } => Outcome::Fetched(Ok(())),
            Action::Enrich { .. } => Outcome::Stored(Ok(())),
            Action::Pause => break,
            other => panic!("unexpected action {:?}", other),
        };
    }
    assert_eq!(job.result().albums_updated, 2);
    let step = job.step(Outcome::Resumed, true);
    assert_eq!(step.action, Action::Abort(ScraperError::Cancelled));
    assert_eq!(job.result().albums_updated, 2);
    assert_eq!(job.stage(), Stage::Cancelled);
    drop(host);
}

#[test]
fn page_fetch_failure_fails_the_run() {
    let mut job = new_job(None, None);
    let step = job.step(Outcome::Begin, false);
    assert_eq!(step.action, Action::FetchPage { page: 1, per_page: 100 });
    let step = job.step(Outcome::Page(Err(ScraperError::RateLimitExceeded)), false);
    assert_eq!(step.action, Action::Abort(ScraperError::RateLimitExceeded));
    assert_eq!(job.stage(), Stage::Failed);
}

#[test]
fn release_fetch_failure_is_reported_and_skipped() {
    let mut host = Host::new(vec![vec![7, 8]]);
    host.fail_fetch.insert(7);
    let mut job = new_job(None, None);
    let end = host.run(&mut job, None);
    assert_eq!(
        end,
        Action::Finish(ScrapeResult { albums_added: 2, albums_updated: 1, total_items: 2 })
    );
    assert!(host.notices.contains(&Notice::Failure {
        step: FailedStep::FetchRelease,
        release_id: 7,
        error: ScraperError::NotFound,
    }));
}

#[test]
fn limit_stops_inventory_mid_page() {
    let mut host = Host::new(vec![(1..=10).collect(), (11..=20).collect()]);
    let mut job = new_job(Some(15), Some(10));
    let end = host.run(&mut job, None);
    assert_eq!(
        end,
        Action::Finish(ScrapeResult { albums_added: 15, albums_updated: 15, total_items: 20 })
    );
    let checked: Vec<u64> = host
        .actions
        .iter()
        .filter_map(|a| match a {
            Action::CheckStored { release_id } => Some(*release_id),
            _ => None,
        })
        .collect();
    assert_eq!(checked, (1..=15).collect::<Vec<u64>>());
    // Inventory progress at 10 and once more at the end of the phase.
    assert!(host.notices.contains(&Notice::Progress {
        phase: ProgressPhase::Inventory,
        current: 15,
        total: 20,
        batch: None,
    }));
    // Two batches with their 1-based ranges, and one pause between them.
    assert!(host.notices.contains(&Notice::Progress {
        phase: ProgressPhase::Enrichment,
        current: 10,
        total: 15,
        batch: Some((1, 10)),
    }));
    assert!(host.notices.contains(&Notice::Progress {
        phase: ProgressPhase::Enrichment,
        current: 15,
        total: 15,
        batch: Some((11, 15)),
    }));
    assert_eq!(host.actions.iter().filter(|a| **a == Action::Pause).count(), 1);
}

#[test]
fn existing_albums_are_not_added_again() {
    let mut host = Host::new(vec![vec![1, 2, 3]]);
    host.stored.insert(2);
    let mut job = new_job(None, None);
    let end = host.run(&mut job, None);
    assert_eq!(
        end,
        Action::Finish(ScrapeResult { albums_added: 2, albums_updated: 3, total_items: 3 })
    );
    let saved: Vec<u64> = host
        .notices
        .iter()
        .filter_map(|n| match n {
            Notice::ItemSaved { release_id, .. } => Some(*release_id),
            _ => None,
        })
        .collect();
    assert_eq!(saved, vec![1, 3]);
}

#[test]
fn limit_zero_processes_nothing() {
    let mut host = Host::new(vec![vec![1, 2]]);
    let mut job = new_job(Some(0), None);
    let end = host.run(&mut job, None);
    assert_eq!(
        end,
        Action::Finish(ScrapeResult { albums_added: 0, albums_updated: 0, total_items: 2 })
    );
}

#[test]
fn empty_inventory_completes() {
    let mut host = Host::new(vec![vec![]]);
    let mut job = new_job(None, None);
    let end = host.run(&mut job, None);
    assert_eq!(
        end,
        Action::Finish(ScrapeResult { albums_added: 0, albums_updated: 0, total_items: 0 })
    );
}

#[test]
fn accepts_only_the_awaited_outcome() {
    let mut job = new_job(None, None);
    assert!(job.accepts(&Outcome::Begin));
    assert!(!job.accepts(&Outcome::Resumed));
    job.step(Outcome::Begin, false);
    assert!(job.accepts(&Outcome::Page(Err(ScraperError::NotFound))));
    assert!(!job.accepts(&Outcome::Begin));
}

#[test]
fn job_needs_a_token() {
    assert!(matches!(ScrapeJob::new(None, None, None), Err(ScraperError::MissingToken)));
    assert!(matches!(
        ScrapeJob::new(Some(String::new()), None, None),
        Err(ScraperError::MissingToken)
    ));
    let job = new_job(None, None);
    assert_eq!(job.stage(), Stage::Ready);
    assert_eq!(job.client().authorization(), "Discogs token=tok");
}
