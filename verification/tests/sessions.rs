use mdnotes::bus::RecvOutcome;
use mdnotes::bus::SocketAction;
use mdnotes::bus::socket_step;
use mdnotes::registry::SessionRecord;
use mdnotes::registry::SessionRegistry;
use mdnotes::session::Dispatch;
use mdnotes::session::close_session;
use mdnotes::session::dispatch_request;
use mdnotes::session::livereload_url;
use mdnotes::session::open_session;

fn record(dir: &str) -> SessionRecord {
    SessionRecord { html_dir: String::from(dir), livereload_url: String::from("ws://localhost/1/ws") }
}

#[test]
fn two_sessions_get_distinct_ids() {
    let mut reg = SessionRegistry::new();
    let a = reg.register(record("/out/a")).unwrap();
    let b = reg.register(record("/out/b")).unwrap();
    assert_ne!(a, b);
    assert_eq!(a, 1);
    assert_eq!(b, 2);
    assert_eq!(reg.lookup(a).unwrap().html_dir, "/out/a");
    assert_eq!(reg.lookup(b).unwrap().html_dir, "/out/b");
}

#[test]
fn closing_one_session_leaves_the_other_untouched() {
    let mut reg = SessionRegistry::new();
    let a = reg.register(record("/out/a")).unwrap();
    let b = reg.register(record("/out/b")).unwrap();
    assert!(reg.close(a));
    assert!(reg.lookup(a).is_none());
    assert_eq!(reg.lookup(b).unwrap().html_dir, "/out/b");
    assert!(matches!(dispatch_request(&reg, "/2/static/index.html"), Dispatch::ServeStatic(..)));
    assert!(matches!(dispatch_request(&reg, "/2/ws"), Dispatch::Subscribe(2)));
}

#[test]
fn closing_an_unknown_id_is_a_quiet_no_op() {
    let mut reg = SessionRegistry::new();
    assert!(!reg.close(99));
    let a = reg.register(record("/out/a")).unwrap();
    assert!(!reg.close(a + 1));
    assert_eq!(reg.lookup(a).unwrap().html_dir, "/out/a");
}

#[test]
fn closed_session_fails_as_not_found_on_both_routes() {
    let mut reg = SessionRegistry::new();
    let a = reg.register(record("/out/a")).unwrap();
    assert!(matches!(dispatch_request(&reg, "/1/static/x"), Dispatch::ServeStatic(..)));
    reg.close(a);
    assert!(matches!(dispatch_request(&reg, "/1/static/x"), Dispatch::NotFound));
    // the socket route cannot refuse the upgrade: it accepts, then closes
    assert!(matches!(dispatch_request(&reg, "/1/ws"), Dispatch::AcceptThenClose));
}

#[test]
fn in_flight_subscription_ends_when_its_session_closes() {
    let mut s = open_session(
        1,
        String::from("/out/a"),
        String::from("ws://localhost:3000/1/ws"),
        &vec![true],
    );
    let mut sub = s.bus.subscribe();
    close_session(&mut s);
    assert!(s.shutdown_requested);
    assert!(matches!(sub.try_receive(&s.bus), RecvOutcome::Closed));
    assert!(matches!(socket_step(&RecvOutcome::Closed), SocketAction::Disconnect));
}

#[test]
fn dispatch_follows_the_route_grammar() {
    let mut reg = SessionRegistry::new();
    let _a = reg.register(record("/out/a")).unwrap();
    match dispatch_request(&reg, "/1/static/css/app.css") {
        Dispatch::ServeStatic(dir, tail) => {
            assert_eq!(dir, "/out/a");
            assert_eq!(tail, "css/app.css");
        },
        _ => panic!("static route must serve"),
    }
    match dispatch_request(&reg, "/1/static/") {
        Dispatch::ServeStatic(_, tail) => assert_eq!(tail, ""),
        _ => panic!("bare static route must serve the empty tail"),
    }
    assert!(matches!(dispatch_request(&reg, "/1/ws"), Dispatch::Subscribe(1)));
    // malformed or unknown shapes all collapse into not-found
    assert!(matches!(dispatch_request(&reg, ""), Dispatch::NotFound));
    assert!(matches!(dispatch_request(&reg, "/"), Dispatch::NotFound));
    assert!(matches!(dispatch_request(&reg, "/abc/static/x"), Dispatch::NotFound));
    assert!(matches!(dispatch_request(&reg, "/1/other"), Dispatch::NotFound));
    assert!(matches!(dispatch_request(&reg, "/1"), Dispatch::NotFound));
    // an id past the counter width is no session, never an error
    assert!(matches!(
        dispatch_request(&reg, "/99999999999999999999999/static/x"),
        Dispatch::NotFound
    ));
}

#[test]
fn session_state_opens_and_closes() {
    let url = livereload_url(3000, 2);
    assert_eq!(url, "ws://localhost:3000/2/ws");
    let mut s = open_session(2, String::from("/out/b"), url, &vec![false, false]);
    assert_eq!(s.id, 2);
    assert_eq!(s.html_dir, "/out/b");
    assert!(!s.shutdown_requested);
    assert!(matches!(s.mode, mdnotes::debounce::WatcherMode::Degraded));
    close_session(&mut s);
    assert!(s.shutdown_requested);
    assert!(s.bus.closed);
}
