use raindesk::overlay::{
    drain_signals, frame_sleep_micros, LayerEvent, OverlayError, OverlaySignal, OverlayState,
};

#[test]
fn configure_event_sets_size_and_acknowledges() {
    let mut s = OverlayState::new();
    assert!(!s.negotiation_done());
    let ack = s.event(LayerEvent::Configure { serial: 7, width: 800, height: 600 });
    assert_eq!(ack, Some(7));
    assert!(s.configured);
    assert!(s.negotiation_done());
    assert_eq!(s.negotiated_size().unwrap(), (800, 600));
}

#[test]
fn zero_size_configure_aborts_the_session() {
    let mut s = OverlayState::new();
    let ack = s.event(LayerEvent::Configure { serial: 3, width: 0, height: 600 });
    assert_eq!(ack, Some(3));
    assert!(s.configured);
    assert!(s.negotiation_done());
    let r = s.negotiated_size();
    assert!(matches!(r, Err(OverlayError::Protocol(_))));

    let mut s2 = OverlayState::new();
    s2.event(LayerEvent::Configure { serial: 4, width: 800, height: 0 });
    assert!(matches!(s2.negotiated_size(), Err(OverlayError::Protocol(_))));
}

#[test]
fn close_before_configure_aborts_the_session() {
    let mut s = OverlayState::new();
    let ack = s.event(LayerEvent::Closed);
    assert_eq!(ack, None);
    assert!(s.closed);
    assert!(s.negotiation_done());
    assert!(matches!(s.negotiated_size(), Err(OverlayError::Protocol(_))));
}

#[test]
fn close_after_configure_is_terminal() {
    let mut s = OverlayState::new();
    s.event(LayerEvent::Configure { serial: 1, width: 800, height: 600 });
    s.event(LayerEvent::Closed);
    assert!(s.closed);
    assert!(matches!(s.negotiated_size(), Err(OverlayError::Protocol(_))));
}

#[test]
fn later_configure_resizes() {
    let mut s = OverlayState::new();
    s.event(LayerEvent::Configure { serial: 1, width: 800, height: 600 });
    assert!(!s.needs_resize(800, 600));
    s.event(LayerEvent::Configure { serial: 2, width: 1920, height: 1080 });
    assert!(s.needs_resize(800, 600));
    assert_eq!(s.negotiated_size().unwrap(), (1920, 1080));
}

#[test]
fn drain_reports_reloads_and_stops_at_shutdown() {
    assert_eq!(drain_signals(&vec![]), (false, false));
    assert_eq!(drain_signals(&vec![OverlaySignal::ConfigChanged]), (false, true));
    assert_eq!(drain_signals(&vec![OverlaySignal::Shutdown]), (true, false));
    assert_eq!(
        drain_signals(&vec![OverlaySignal::ConfigChanged, OverlaySignal::Shutdown]),
        (true, true)
    );
    assert_eq!(
        drain_signals(&vec![OverlaySignal::Shutdown, OverlaySignal::ConfigChanged]),
        (true, false)
    );
    assert_eq!(
        drain_signals(&vec![
            OverlaySignal::ConfigChanged,
            OverlaySignal::ConfigChanged,
            OverlaySignal::ConfigChanged
        ]),
        (false, true)
    );
}

#[test]
fn frame_pacing_sleeps_the_budget_remainder() {
    assert_eq!(frame_sleep_micros(0), 16_667);
    assert_eq!(frame_sleep_micros(10_000), 6667);
    assert_eq!(frame_sleep_micros(16_667), 0);
    assert_eq!(frame_sleep_micros(1_000_000), 0);
}

#[test]
fn errors_describe_their_phase() {
    let e = OverlayError::Transport(String::from("no compositor"));
    assert_eq!(e.describe(), "transport: no compositor");
    let e = OverlayError::Protocol(String::from("closed early"));
    assert_eq!(e.describe(), "protocol: closed early");
    let e = OverlayError::GraphicsInit(String::from("no driver"));
    assert_eq!(e.describe(), "graphics init: no driver");
    let e = OverlayError::GraphicsRuntime(String::from("lost context"));
    assert_eq!(e.describe(), "graphics runtime: lost context");
    let e = OverlayError::Shader(String::from("syntax"));
    assert_eq!(e.describe(), "shader: syntax");
}
