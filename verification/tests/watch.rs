use mdnotes::bus::ReloadBus;
use mdnotes::debounce::DebounceStep;
use mdnotes::debounce::FsEvent;
use mdnotes::debounce::WaitResult;
use mdnotes::debounce::WatcherMode;
use mdnotes::debounce::collect_batch;
use mdnotes::debounce::debounce_step;
use mdnotes::debounce::event_path;
use mdnotes::debounce::initial_watcher_mode;
use mdnotes::ignore::PathVerdict;
use mdnotes::ignore::any_kept;
use mdnotes::ignore::found_unignored_files;
use mdnotes::session::on_build_result;

#[test]
fn events_contribute_their_paths() {
    assert_eq!(event_path(&FsEvent::Create(String::from("/b/a"))).unwrap(), "/b/a");
    assert_eq!(event_path(&FsEvent::Write(String::from("/b/w"))).unwrap(), "/b/w");
    assert_eq!(event_path(&FsEvent::Remove(String::from("/b/r"))).unwrap(), "/b/r");
    // a rename contributes only its destination
    assert_eq!(
        event_path(&FsEvent::Rename(String::from("/b/old"), String::from("/b/new"))).unwrap(),
        "/b/new"
    );
    assert!(event_path(&FsEvent::Other).is_none());
}

#[test]
fn batch_keeps_arrival_order_and_drops_pathless_events() {
    let events = vec![
        FsEvent::Write(String::from("/b/1")),
        FsEvent::Other,
        FsEvent::Rename(String::from("/b/x"), String::from("/b/2")),
        FsEvent::Remove(String::from("/b/3")),
    ];
    let paths = collect_batch(&events);
    assert_eq!(paths, vec!["/b/1", "/b/2", "/b/3"]);
}

#[test]
fn worker_decisions() {
    let ev = WaitResult::Event(FsEvent::Write(String::from("/b/f")));
    assert!(matches!(debounce_step(false, &ev), DebounceStep::CollectBatch));
    assert!(matches!(debounce_step(false, &WaitResult::TimedOut), DebounceStep::WaitAgain));
    assert!(matches!(debounce_step(false, &WaitResult::Disconnected), DebounceStep::Exit));
    // an observed shutdown request wins over everything
    assert!(matches!(debounce_step(true, &ev), DebounceStep::Exit));
    assert!(matches!(debounce_step(true, &WaitResult::TimedOut), DebounceStep::Exit));
}

#[test]
fn watcher_degrades_only_when_no_root_watches() {
    assert!(matches!(initial_watcher_mode(&vec![false, false, false]), WatcherMode::Degraded));
    assert!(matches!(initial_watcher_mode(&vec![false, true, false]), WatcherMode::Active));
    assert!(matches!(initial_watcher_mode(&vec![]), WatcherMode::Degraded));
}

#[test]
fn ignore_verdicts_fail_open() {
    // a positively excluded path is dropped; an evaluation error keeps its path
    assert!(!any_kept(&vec![PathVerdict::Excluded]));
    assert!(!any_kept(&vec![PathVerdict::Excluded, PathVerdict::Excluded]));
    assert!(any_kept(&vec![PathVerdict::Excluded, PathVerdict::Included]));
    assert!(any_kept(&vec![PathVerdict::CheckFailed]));
    assert!(!any_kept(&vec![]));
}

#[test]
fn without_ignore_rules_every_nonempty_batch_counts() {
    assert!(!found_unignored_files(None, &vec![]));
    assert!(found_unignored_files(None, &vec![String::from("/b/src/a.md")]));
}

#[test]
fn five_coalesced_writes_publish_exactly_once() {
    // five write events within one quiet period: one batch, one rebuild,
    // exactly one reload published
    let mut events: Vec<FsEvent> = Vec::new();
    let mut i: u32 = 0;
    while i < 5 {
        events.push(FsEvent::Write(String::from("/b/src/chapter.md")));
        i += 1;
    }
    let paths = collect_batch(&events);
    assert_eq!(paths.len(), 5);
    let actionable = found_unignored_files(None, &paths);
    assert!(actionable);
    let mut bus = ReloadBus::new();
    let mut sub = bus.subscribe();
    let published = on_build_result(true, &mut bus);
    assert!(published);
    assert_eq!(bus.epoch, 1);
    // the one subscriber sees exactly one event
    assert!(matches!(sub.try_receive(&bus), mdnotes::bus::RecvOutcome::Reload));
    assert!(matches!(sub.try_receive(&bus), mdnotes::bus::RecvOutcome::Pending));
}

#[test]
fn fully_ignored_batch_publishes_nothing() {
    // the only changed path is covered by the ignore rules: the batch is
    // not actionable, so no rebuild runs and nothing is published
    let verdicts = vec![PathVerdict::Excluded];
    let actionable = any_kept(&verdicts);
    assert!(!actionable);
    let mut bus = ReloadBus::new();
    let mut sub = bus.subscribe();
    assert_eq!(bus.epoch, 0);
    assert!(matches!(sub.try_receive(&bus), mdnotes::bus::RecvOutcome::Pending));
}

#[test]
fn failed_rebuild_publishes_nothing() {
    let mut bus = ReloadBus::new();
    let published = on_build_result(false, &mut bus);
    assert!(!published);
    assert_eq!(bus.epoch, 0);
}
