use mdnotes::RELOAD_TOKEN;
use mdnotes::bus::RecvOutcome;
use mdnotes::bus::ReloadBus;
use mdnotes::bus::SocketAction;
use mdnotes::bus::socket_step;

#[test]
fn late_subscriber_never_sees_earlier_publish() {
    let mut bus = ReloadBus::new();
    bus.publish();
    // subscribed strictly after the publish: nothing is replayed
    let mut late = bus.subscribe();
    assert!(matches!(late.try_receive(&bus), RecvOutcome::Pending));
}

#[test]
fn subscriber_before_publish_gets_exactly_one_event_per_publish() {
    let mut bus = ReloadBus::new();
    let mut sub = bus.subscribe();
    bus.publish();
    assert!(matches!(sub.try_receive(&bus), RecvOutcome::Reload));
    assert!(matches!(sub.try_receive(&bus), RecvOutcome::Pending));
    bus.publish();
    bus.publish();
    assert!(matches!(sub.try_receive(&bus), RecvOutcome::Reload));
    assert!(matches!(sub.try_receive(&bus), RecvOutcome::Reload));
    assert!(matches!(sub.try_receive(&bus), RecvOutcome::Pending));
}

#[test]
fn lagging_subscriber_skips_and_goes_on() {
    let mut bus = ReloadBus::new();
    let mut sub = bus.subscribe();
    let mut i: u32 = 0;
    while i < 15 {
        bus.publish();
        i += 1;
    }
    // 15 outstanding with room for 10: 5 dropped, no crash, no disconnect
    assert!(matches!(sub.try_receive(&bus), RecvOutcome::Lagged(5)));
    let mut seen: u32 = 0;
    while matches!(sub.try_receive(&bus), RecvOutcome::Reload) {
        seen += 1;
    }
    assert_eq!(seen, 10);
    assert!(matches!(sub.try_receive(&bus), RecvOutcome::Pending));
}

#[test]
fn closure_reaches_every_subscriber_after_draining() {
    let mut bus = ReloadBus::new();
    let mut sub = bus.subscribe();
    bus.publish();
    bus.close();
    // what was published before the close still arrives, then closure
    assert!(matches!(sub.try_receive(&bus), RecvOutcome::Reload));
    assert!(matches!(sub.try_receive(&bus), RecvOutcome::Closed));
}

#[test]
fn socket_forwards_one_frame_per_reload() {
    match socket_step(&RecvOutcome::Reload) {
        SocketAction::SendText(frame) => assert_eq!(frame, "reload"),
        _ => panic!("a received reload must become one text frame"),
    }
    assert!(matches!(socket_step(&RecvOutcome::Lagged(3)), SocketAction::KeepWaiting));
    assert!(matches!(socket_step(&RecvOutcome::Pending), SocketAction::KeepWaiting));
    assert!(matches!(socket_step(&RecvOutcome::Closed), SocketAction::Disconnect));
    assert_eq!(RELOAD_TOKEN, "reload");
}
