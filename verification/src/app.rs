use vstd::prelude::*;
use vstd::string::*;

verus! {

/// A peer as seen on the network: its id and one of its addresses, both in
/// their textual form.
pub struct PeerAddr {
    pub peer_id: String,
    pub addr: String,
}

/// What the peer-to-peer swarm reports to the application.
pub enum SwarmEvent {
    /// Local-network discovery found these peers at these addresses.
    PeersDiscovered(Vec<PeerAddr>),
    /// Local-network discovery saw these records expire.
    PeersExpired(Vec<PeerAddr>),
    /// A connection to the peer with this id was established.
    ConnectionEstablished(String),
    /// Anything else the swarm reports.
    Other,
}

/// The discovered-peer list after the swarm reports `event`: discovered
/// peers are appended in the order reported; other reports change nothing.
pub open spec fn discovered_after(before: Seq<PeerAddr>, event: SwarmEvent) -> Seq<PeerAddr> {
    match event {
        SwarmEvent::PeersDiscovered(peers) => before + peers@,
        _ => before,
    }
}

/// The application's own state: its identity, the user's name and the
/// peers it knows of.
pub struct App {
    pub uuid: u128,
    pub username: String,
    /// Every discovery, in the order it was reported (a peer seen twice is
    /// listed twice).
    pub discovered_peers: Vec<PeerAddr>,
    pub connected_peers: Vec<PeerAddr>,
}

/// Whether `id` has the layout of a random (version 4, RFC 4122 variant)
/// UUID: the version nibble is 4 and the two variant bits are `10`.
pub open spec fn is_random_uuid(id: u128) -> bool {
    &&& (id >> 76u128) & 0xfu128 == 4
    &&& (id >> 62u128) & 0x3u128 == 2
}

/// Calls `uuid::Uuid::new_v4` and returns the UUID as a 128-bit integer.
/// The bits come from the operating system's random source, so only the
/// version and variant bits that `new_v4` sets are stated; the call panics
/// when no random bytes can be obtained.
#[verifier::external_body]
fn random_uuid() -> (id: u128)
    ensures
        is_random_uuid(id),
{
    uuid::Uuid::new_v4().as_u128()
}

impl App {
    /// A fresh application with a random identity, the placeholder user name
    /// "enter username" and no known peers.
    pub fn new() -> (a: App)
        ensures
            is_random_uuid(a.uuid),
            a.username@ == "enter username"@,
            a.discovered_peers@.len() == 0,
            a.connected_peers@.len() == 0,
    {
        App::with_uuid(random_uuid())
    }

    /// A fresh application with identity `uuid`, the placeholder user name
    /// "enter username" and no known peers.
    pub fn with_uuid(uuid: u128) -> (a: App)
        ensures
            a.uuid == uuid,
            a.username@ == "enter username"@,
            a.discovered_peers@.len() == 0,
            a.connected_peers@.len() == 0,
    {
        App {
            uuid,
            username: String::from_str("enter username"),
            discovered_peers: Vec::new(),
            connected_peers: Vec::new(),
        }
    }

    /// Records what the swarm reported: discovered peers are appended, in
    /// order, to the discovered list; every other report changes nothing.
    pub fn on_swarm_event(&mut self, event: SwarmEvent)
        ensures
            final(self).uuid == old(self).uuid,
            final(self).username == old(self).username,
            final(self).connected_peers@ == old(self).connected_peers@,
            final(self).discovered_peers@ == discovered_after(old(self).discovered_peers@, event),
            !(event is PeersDiscovered) ==> final(self).discovered_peers@
                == old(self).discovered_peers@,
            event matches SwarmEvent::PeersDiscovered(peers) ==> final(self).discovered_peers@
                == old(self).discovered_peers@ + peers@,
    {
        match event {
            SwarmEvent::PeersDiscovered(peers) => {
                let mut peers = peers;
                self.discovered_peers.append(&mut peers);
            },
            _ => {},
        }
    }
}

/// Peers already known stay known: after any swarm report, the earlier
/// discoveries are still listed, at the same positions.
pub proof fn discoveries_are_kept(before: Seq<PeerAddr>, event: SwarmEvent)
    ensures
        discovered_after(before, event).len() >= before.len(),
        forall|i: int|
            0 <= i < before.len() ==> #[trigger] discovered_after(before, event)[i] == before[i],
{
}

/// Every peer of a discovery report is listed afterwards, in the order of
/// the report, right after the earlier discoveries.
pub proof fn discovered_peers_are_listed(before: Seq<PeerAddr>, peers: Vec<PeerAddr>)
    ensures
        ({
            let after = discovered_after(before, SwarmEvent::PeersDiscovered(peers));
            &&& after.len() == before.len() + peers@.len()
            &&& forall|j: int|
                0 <= j < peers@.len() ==> #[trigger] after[before.len() + j] == peers@[j]
        }),
{
}

/// Only discoveries add to the list: expiries, established connections and
/// every other report leave it exactly as it was.
pub proof fn only_discoveries_change_the_list(before: Seq<PeerAddr>, event: SwarmEvent)
    ensures
        !(event is PeersDiscovered) ==> discovered_after(before, event) == before,
        event matches SwarmEvent::PeersExpired(peers) ==> discovered_after(before, event)
            == before,
{
}

} // verus!
