use p2p_screenshare::menu::{
    can_connect, connect_pressed_label, peer_dot_class, peer_status_text, stream_status_class,
    stream_status_text, AppState, Peer, PeerList, PeerStatus, StreamStatus,
};

#[test]
fn default_state_is_idle_high_quality() {
    let s = AppState::default();
    assert!(s.peers.is_empty());
    assert_eq!(s.stream_status, StreamStatus::Idle);
    assert!(!s.muted);
    assert!(s.selected_screen.is_none());
    assert_eq!(s.resolution, "Auto");
    assert_eq!(s.quality, "High");
    assert!(s.hw_accel);
}

#[test]
fn title_shows_stream_status() {
    assert_eq!(stream_status_text(StreamStatus::Idle), "Idle");
    assert_eq!(stream_status_text(StreamStatus::Streaming), "Streaming");
    assert_eq!(stream_status_text(StreamStatus::Viewing), "Viewing");
    assert_eq!(stream_status_class(StreamStatus::Idle), Some("idle"));
    assert_eq!(stream_status_class(StreamStatus::Streaming), Some("streaming"));
    assert_eq!(stream_status_class(StreamStatus::Viewing), None);
}

#[test]
fn stream_button_toggles() {
    let mut s = AppState::default();
    let b = s.toggle_streaming();
    assert_eq!(s.stream_status, StreamStatus::Streaming);
    assert_eq!((b.label, b.destructive), ("Stop Streaming", true));
    let b = s.toggle_streaming();
    assert_eq!(s.stream_status, StreamStatus::Idle);
    assert_eq!((b.label, b.destructive), ("Start Streaming", false));
}

#[test]
fn stream_button_while_viewing_starts_streaming() {
    let mut s = AppState::default();
    s.stream_status = StreamStatus::Viewing;
    let b = s.toggle_streaming();
    assert_eq!(s.stream_status, StreamStatus::Streaming);
    assert!(b.destructive);
    s.toggle_streaming();
    assert_eq!(s.stream_status, StreamStatus::Idle);
}

#[test]
fn selectors_keep_choice_on_empty_selection() {
    let mut s = AppState::default();
    s.select_screen(Some("Secondary Monitor".to_string()));
    s.select_screen(None);
    assert_eq!(s.selected_screen.as_deref(), Some("Secondary Monitor"));
    s.select_quality(Some("Low".to_string()));
    s.select_quality(None);
    assert_eq!(s.quality, "Low");
}

#[test]
fn peer_status_lines() {
    assert_eq!(peer_status_text(PeerStatus::Online, Some(42)), "Online · 42ms");
    assert_eq!(peer_status_text(PeerStatus::Online, Some(0)), "Online · 0ms");
    assert_eq!(peer_status_text(PeerStatus::Online, Some(u32::MAX)), "Online · 4294967295ms");
    assert_eq!(peer_status_text(PeerStatus::Online, None), "Online");
    assert_eq!(peer_status_text(PeerStatus::Offline, Some(5)), "Offline");
    assert_eq!(peer_status_text(PeerStatus::Connected, Some(5)), "Connected");
}

#[test]
fn peer_dots_and_connect_buttons() {
    assert_eq!(peer_dot_class(PeerStatus::Online), "status-online");
    assert_eq!(peer_dot_class(PeerStatus::Offline), "status-offline");
    assert_eq!(peer_dot_class(PeerStatus::Connected), "status-connected");
    assert!(can_connect(PeerStatus::Online));
    assert!(can_connect(PeerStatus::Connected));
    assert!(!can_connect(PeerStatus::Offline));
    assert_eq!(connect_pressed_label(), "Disconnect");
}

#[test]
fn empty_peer_list_shows_hint() {
    let s = AppState::default();
    match s.peer_list() {
        PeerList::Empty { message } => assert_eq!(
            message,
            "No peers discovered\n\nMake sure you're connected to the same network"
        ),
        PeerList::Rows(_) => panic!("expected the hint"),
    }
}

#[test]
fn peer_list_has_one_row_per_peer() {
    let mut s = AppState::default();
    s.peers.push(Peer { id: "p1".into(), name: "Alice".into(), status: PeerStatus::Online, latency: Some(12) });
    s.peers.push(Peer { id: "p2".into(), name: "Bob".into(), status: PeerStatus::Offline, latency: None });
    match s.peer_list() {
        PeerList::Rows(rows) => {
            assert_eq!(rows.len(), 2);
            assert_eq!(rows[0].peer_id, "p1");
            assert_eq!(rows[0].name, "Alice");
            assert_eq!(rows[0].dot_class, "status-online");
            assert_eq!(rows[0].status_text, "Online · 12ms");
            assert!(rows[0].connect_enabled);
            assert_eq!(rows[1].peer_id, "p2");
            assert_eq!(rows[1].status_text, "Offline");
            assert_eq!(rows[1].dot_class, "status-offline");
            assert!(!rows[1].connect_enabled);
        }
        PeerList::Empty { .. } => panic!("expected rows"),
    }
}

#[test]
fn selectors_and_switches_touch_only_their_field() {
    let mut s = AppState::default();
    s.peers.push(Peer { id: "p".into(), name: "P".into(), status: PeerStatus::Online, latency: None });
    s.select_quality(Some("Medium".to_string()));
    s.select_screen(Some("Primary Monitor".to_string()));
    assert_eq!(s.peers.len(), 1);
    assert!(!s.muted);
    assert!(s.hw_accel);
    assert_eq!(s.resolution, "Auto");
    s.set_muted(true);
    assert!(s.muted);
    assert!(s.hw_accel);
    assert_eq!(s.quality, "Medium");
    s.set_hw_accel(false);
    assert!(!s.hw_accel);
    assert!(s.muted);
    assert_eq!(s.selected_screen.as_deref(), Some("Primary Monitor"));
    assert_eq!(s.stream_status, StreamStatus::Idle);
}
