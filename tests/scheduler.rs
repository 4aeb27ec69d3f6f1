use pharma_watch::scheduler::{Action, Phase, Scheduler, REFRESH_INTERVAL_MS, RETRY_DELAY_MS};
use pharma_watch::store::{ApiResponse, InnerStorage};

#[test]
fn cycle_runs_the_three_steps_in_order() {
    let mut s = Scheduler::new();
    assert_eq!(s.step(1000, true), Action::CrawlPei);
    assert_eq!(s.step(2000, false), Action::CrawlBfarm);
    assert_eq!(s.step(3000, false), Action::RefreshFeed);
    assert_eq!(s.step(4000, true), Action::Sleep(REFRESH_INTERVAL_MS - 3000));
    assert_eq!(s.phase, Phase::Sleeping);
    assert_eq!(s.step(REFRESH_INTERVAL_MS + 1000, true), Action::CrawlPei);
    assert_eq!(s.cycle_start, REFRESH_INTERVAL_MS + 1000);
}

#[test]
fn overrun_cycle_starts_again_at_once() {
    let mut s = Scheduler::new();
    s.step(0, true);
    s.step(10, true);
    s.step(20, true);
    assert_eq!(s.step(REFRESH_INTERVAL_MS + 5, true), Action::Sleep(0));
}

#[test]
fn failed_feed_retries_after_short_delay() {
    let mut store = InnerStorage::new();
    let mut s = Scheduler::new();
    s.step(0, true);
    s.step(10, true);
    s.step(20, true);
    // The feed fetch failed: nothing is handed to the store.
    assert_eq!(s.step(30, false), Action::Sleep(RETRY_DELAY_MS));
    assert_eq!(RETRY_DELAY_MS, 5000);
    assert!(matches!(store.lieferengpaesse(), ApiResponse::NotReady));
    assert!(store.lieferengpaesse.is_empty());
    assert_eq!(s.step(5030, true), Action::CrawlPei);
    assert_eq!(s.cycle_start, 5030);
    store.replace_lieferengpaesse(Vec::new());
    assert!(matches!(store.lieferengpaesse(), ApiResponse::Success(_)));
}
