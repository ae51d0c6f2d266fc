//! Coalescing raw filesystem events into actionable batches.
//!
//! A dedicated worker blocks for the first event with a bounded wait so
//! that a shutdown request is observed at least once per cycle, sleeps one
//! fixed quiet period, then drains everything queued without blocking: one
//! batch. The functions here are the worker's decisions; the waiting,
//! sleeping and draining themselves belong to the loop that calls them.

use vstd::prelude::*;

verus! {

/// The quiet period in milliseconds: events arriving within it join the
/// batch already forming.
pub const DEBOUNCE_QUIET_MS: u64 = 50;

/// The bounded wait in seconds between shutdown checks; shutdown latency
/// is bounded by this interval.
pub const WATCH_POLL_SECS: u64 = 1;

/// One raw filesystem event, as the watcher reports it.
pub enum FsEvent {
    /// A path was created.
    Create(String),
    /// A path was written.
    Write(String),
    /// A path was removed.
    Remove(String),
    /// A path was renamed: source, then destination.
    Rename(String, String),
    /// Anything else the watcher reports; it contributes no path.
    Other,
}

/// The path one event contributes to a batch: a rename contributes only
/// its destination, and the notice-style events contribute nothing.
pub open spec fn event_path_spec(e: FsEvent) -> Option<Seq<char>> {
    match e {
        FsEvent::Create(p) => Some(p@),
        FsEvent::Write(p) => Some(p@),
        FsEvent::Remove(p) => Some(p@),
        FsEvent::Rename(_, dst) => Some(dst@),
        FsEvent::Other => None,
    }
}

/// The path of one event, if it contributes one.
pub fn event_path(e: &FsEvent) -> (r: Option<String>)
    ensures
        r matches Some(p) ==> event_path_spec(*e) == Some(p@),
        r is None <==> event_path_spec(*e) is None,
{
    match e {
        FsEvent::Create(p) => Some(p.clone()),
        FsEvent::Write(p) => Some(p.clone()),
        FsEvent::Remove(p) => Some(p.clone()),
        FsEvent::Rename(_, dst) => Some(dst.clone()),
        FsEvent::Other => None,
    }
}

/// All the paths a burst of events contributes, in arrival order.
pub open spec fn batch_paths_spec(events: Seq<FsEvent>) -> Seq<Seq<char>>
    decreases events.len(),
{
    if events.len() == 0 {
        Seq::empty()
    } else {
        let rest = batch_paths_spec(events.drop_last());
        match event_path_spec(events.last()) {
            Some(p) => rest.push(p),
            None => rest,
        }
    }
}

/// Collects one batch: the contributed path of every event of the burst,
/// first event included, in order.
pub fn collect_batch(events: &Vec<FsEvent>) -> (paths: Vec<String>)
    ensures
        paths@.map_values(|p: String| p@) == batch_paths_spec(events@),
{
    let mut paths: Vec<String> = Vec::new();
    let mut i: usize = 0;
    assert(events@.take(0) =~= Seq::<FsEvent>::empty());
    assert(paths@.map_values(|p: String| p@) =~= batch_paths_spec(events@.take(0)));
    while i < events.len()
        invariant
            0 <= i <= events@.len(),
            paths@.map_values(|p: String| p@) == batch_paths_spec(events@.take(i as int)),
        decreases events@.len() - i,
    {
        let ghost prefix = events@.take(i as int);
        match event_path(&events[i]) {
            Some(p) => paths.push(p),
            None => (),
        }
        proof {
            assert(events@.take(i + 1).drop_last() =~= prefix);
            assert(events@.take(i + 1).last() == events@[i as int]);
            assert(paths@.map_values(|p: String| p@) =~= batch_paths_spec(events@.take(i + 1)));
        }
        i += 1;
    }
    assert(events@.take(events@.len() as int) =~= events@);
    paths
}

/// How one wait for a first event came out.
pub enum WaitResult {
    /// An event arrived; it opens a batch.
    Event(FsEvent),
    /// Nothing arrived within the bounded wait.
    TimedOut,
    /// The event source is gone.
    Disconnected,
}

/// What the worker does next.
pub enum DebounceStep {
    /// Sleep the quiet period, drain everything queued, and process that
    /// batch together with the event that opened it.
    CollectBatch,
    /// Go round again: check shutdown and wait anew.
    WaitAgain,
    /// Stop watching for good.
    Exit,
}

/// One turn of the debounce worker: an observed shutdown request wins over
/// everything; otherwise an event opens a batch, a timeout merely loops,
/// and a disconnected source ends the worker.
pub fn debounce_step(shutdown_requested: bool, wait: &WaitResult) -> (step: DebounceStep)
    ensures
        shutdown_requested ==> step is Exit,
        !shutdown_requested ==> (match wait {
            WaitResult::Event(_) => step is CollectBatch,
            WaitResult::TimedOut => step is WaitAgain,
            WaitResult::Disconnected => step is Exit,
        }),
{
    if shutdown_requested {
        DebounceStep::Exit
    } else {
        match wait {
            WaitResult::Event(_) => DebounceStep::CollectBatch,
            WaitResult::TimedOut => DebounceStep::WaitAgain,
            WaitResult::Disconnected => DebounceStep::Exit,
        }
    }
}

/// Whether a session's watcher runs at all.
pub enum WatcherMode {
    /// At least one root is watched; changes will be seen.
    Active,
    /// No root could be watched: the session stays open but will never
    /// reload — a degraded state surfaced for diagnostics, not an error.
    Degraded,
}

/// The mode a fresh watcher starts in, from the per-root watch outcomes
/// (source tree, theme tree, configuration file — each best-effort).
pub fn initial_watcher_mode(watch_ok: &Vec<bool>) -> (m: WatcherMode)
    ensures
        m is Active <==> exists|i: int| 0 <= i < watch_ok@.len() && watch_ok@[i],
{
    let mut i: usize = 0;
    while i < watch_ok.len()
        invariant
            0 <= i <= watch_ok@.len(),
            forall|j: int| 0 <= j < i ==> !watch_ok@[j],
        decreases watch_ok@.len() - i,
    {
        if watch_ok[i] {
            return WatcherMode::Active;
        }
        i += 1;
    }
    WatcherMode::Degraded
}

} // verus!
