use p2p_screenshare::app::{App, PeerAddr, SwarmEvent};

fn peer(id: &str, addr: &str) -> PeerAddr {
    PeerAddr { peer_id: id.to_string(), addr: addr.to_string() }
}

fn ids(app: &App) -> Vec<(String, String)> {
    app.discovered_peers.iter().map(|p| (p.peer_id.clone(), p.addr.clone())).collect()
}

#[test]
fn new_app_has_placeholder_name_and_no_peers() {
    let a = App::with_uuid(7);
    assert_eq!(a.uuid, 7);
    assert_eq!(a.username, "enter username");
    assert!(a.discovered_peers.is_empty());
    assert!(a.connected_peers.is_empty());
}

#[test]
fn new_app_gets_random_v4_uuid() {
    let a = App::new();
    let b = App::new();
    assert_eq!((a.uuid >> 76) & 0xf, 4);
    assert_eq!((a.uuid >> 62) & 0x3, 2);
    assert_eq!((b.uuid >> 76) & 0xf, 4);
    assert_ne!(a.uuid, b.uuid);
    assert_eq!(a.username, "enter username");
}

#[test]
fn discoveries_are_appended_in_order() {
    let mut a = App::with_uuid(1);
    a.on_swarm_event(SwarmEvent::PeersDiscovered(vec![peer("A", "/ip4/1.2.3.4"), peer("B", "/ip4/5.6.7.8")]));
    a.on_swarm_event(SwarmEvent::PeersDiscovered(vec![peer("A", "/ip6/::1")]));
    assert_eq!(
        ids(&a),
        vec![
            ("A".to_string(), "/ip4/1.2.3.4".to_string()),
            ("B".to_string(), "/ip4/5.6.7.8".to_string()),
            ("A".to_string(), "/ip6/::1".to_string()),
        ]
    );
}

#[test]
fn other_swarm_events_change_nothing() {
    let mut a = App::with_uuid(1);
    a.on_swarm_event(SwarmEvent::PeersDiscovered(vec![peer("A", "x")]));
    a.on_swarm_event(SwarmEvent::ConnectionEstablished("A".to_string()));
    a.on_swarm_event(SwarmEvent::PeersExpired(vec![peer("A", "x")]));
    a.on_swarm_event(SwarmEvent::Other);
    assert_eq!(ids(&a), vec![("A".to_string(), "x".to_string())]);
    assert!(a.connected_peers.is_empty());
}
