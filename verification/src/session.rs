//! One watched session's serving state, and the routing of requests to
//! sessions.
//!
//! A session opens only after one synchronous initial build has succeeded;
//! a builder failure aborts the open in the caller before any of this
//! state exists. Closing is cooperative and fire-and-forget: it sets the
//! flag the watch worker polls (observed at most one wait cycle later) and
//! drops the reload publisher; it never waits for the worker.

use vstd::prelude::*;
use vstd::string::StringExecFns;

use crate::bus::ReloadBus;
use crate::debounce::WatcherMode;
use crate::debounce::initial_watcher_mode;
use crate::registry::SessionRegistry;
use crate::route::RouteKind;
use crate::route::RouteSpec;
use crate::route::dec_digits;
use crate::route::parse_route;
use crate::route::route_of;
use crate::route::u64_to_dec;

verus! {

/// The reload-endpoint URL a session's output is built with.
pub open spec fn livereload_url_spec(port: u16, id: u64) -> Seq<char> {
    "ws://localhost:"@ + dec_digits(port as nat) + "/"@ + dec_digits(id as nat) + "/ws"@
}

/// Composes the reload-endpoint URL for session `id` on the bound `port`.
/// Its path routes back to that session's socket
/// ([`crate::route::lemma_endpoint_routes_to_session`]).
pub fn livereload_url(port: u16, id: u64) -> (r: String)
    ensures
        r@ == livereload_url_spec(port, id),
{
    let mut s = String::from_str("ws://localhost:");
    let p = u64_to_dec(port as u64);
    s.append(p.as_str());
    s.append("/");
    let i = u64_to_dec(id);
    s.append(i.as_str());
    s.append("/ws");
    assert(s@ =~= livereload_url_spec(port, id));
    s
}

/// One open session: its output tree, its reload bus, its watcher state.
pub struct WatchedSession {
    /// The registry id this session serves under.
    pub id: u64,
    /// The generated output tree static requests resolve against.
    pub html_dir: String,
    /// The reload-endpoint URL the output was built with.
    pub livereload: String,
    /// The session's reload broadcast.
    pub bus: ReloadBus,
    /// Whether any root is actually watched.
    pub mode: WatcherMode,
    /// The cooperative shutdown flag the watch worker polls.
    pub shutdown_requested: bool,
}

/// Builds the serving state of a session whose initial build succeeded.
/// `watch_ok` holds the per-root watch outcomes (source tree, theme tree,
/// configuration file): none succeeding leaves the session open but
/// degraded — it will never reload.
pub fn open_session(id: u64, html_dir: String, livereload: String, watch_ok: &Vec<bool>) -> (s:
    WatchedSession)
    ensures
        s.id == id,
        s.html_dir == html_dir,
        s.livereload == livereload,
        s.bus.epoch == 0,
        !s.bus.closed,
        !s.shutdown_requested,
        s.mode is Active <==> exists|i: int| 0 <= i < watch_ok@.len() && watch_ok@[i],
{
    let bus = ReloadBus::new();
    let mode = initial_watcher_mode(watch_ok);
    WatchedSession { id, html_dir, livereload, bus, mode, shutdown_requested: false }
}

/// Closes a session: sets the worker's shutdown flag and drops the reload
/// publisher, so every subscriber observes closure once it has drained.
/// Nothing waits: teardown is cooperative, bounded by the worker's poll.
pub fn close_session(s: &mut WatchedSession)
    ensures
        final(s).shutdown_requested,
        final(s).bus.closed,
        final(s).bus.epoch == old(s).bus.epoch,
        final(s).id == old(s).id,
        final(s).html_dir == old(s).html_dir,
        final(s).livereload == old(s).livereload,
        final(s).mode == old(s).mode,
{
    s.shutdown_requested = true;
    s.bus.close();
}

/// Settles one actionable batch against the builder's outcome: a
/// successful rebuild publishes exactly one reload event, whatever the
/// subscriber count; a failed one publishes nothing and the previously
/// built output stays served — no retry until the next natural filesystem
/// event.
pub fn on_build_result(build_ok: bool, bus: &mut ReloadBus) -> (published: bool)
    requires
        !old(bus).closed,
        old(bus).epoch < u64::MAX,
    ensures
        published == build_ok,
        build_ok ==> (final(bus).epoch == old(bus).epoch + 1 && !final(bus).closed),
        !build_ok ==> *final(bus) == *old(bus),
{
    if build_ok {
        bus.publish();
        true
    } else {
        false
    }
}

/// What the transport does with one incoming request.
pub enum Dispatch {
    /// Answer plain not-found: no such route, or no such session on the
    /// static route. Every failure shape collapses here on purpose.
    NotFound,
    /// Resolve the tail (second field) under the session's output root
    /// (first field) and stream the file.
    ServeStatic(String, String),
    /// Complete the socket upgrade, then close at once: an upgrade cannot
    /// be refused, only terminated — the deliberate asymmetry of the
    /// socket route for an unknown session.
    AcceptThenClose,
    /// Subscribe this connection to the session's reload bus.
    Subscribe(u64),
}

/// Routes one request path against the open sessions: the static route of
/// an unknown session answers not-found, its socket route accepts the
/// upgrade and terminates at once, and a known session is served from
/// exactly the output root its record names.
pub fn dispatch_request(reg: &SessionRegistry, path: &str) -> (d: Dispatch)
    ensures
        route_of(path@) is None ==> d is NotFound,
        route_of(path@) matches Some(RouteSpec::SocketRoute(id)) ==> (if reg.contents().dom().contains(id) {
            d == Dispatch::Subscribe(id)
        } else {
            d is AcceptThenClose
        }),
        route_of(path@) matches Some(RouteSpec::StaticRoute(id, tail)) ==> (if reg.contents().dom().contains(id) {
            d matches Dispatch::ServeStatic(dir, t) && dir@ == reg.contents()[id].html_dir@ && t@
                == tail
        } else {
            d is NotFound
        }),
{
    match parse_route(path) {
        None => Dispatch::NotFound,
        Some(req) => match req.kind {
            RouteKind::Socket => match reg.lookup(req.session) {
                Some(_) => Dispatch::Subscribe(req.session),
                None => Dispatch::AcceptThenClose,
            },
            RouteKind::Static(tail) => match reg.lookup(req.session) {
                Some(rec) => Dispatch::ServeStatic(rec.html_dir, tail),
                None => Dispatch::NotFound,
            },
        },
    }
}

} // verus!
