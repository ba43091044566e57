use vstd::prelude::*;
use vstd::string::*;
use crate::text::{decimal, push_decimal};

verus! {

/// Reachability of a discovered peer.
#[derive(Clone, Copy, Debug, PartialEq, Eq, Structural)]
pub enum PeerStatus {
    Online,
    Offline,
    Connected,
}

/// Whether this instance is sharing its screen, watching another's, or neither.
#[derive(Clone, Copy, Debug, PartialEq, Eq, Structural)]
pub enum StreamStatus {
    Idle,
    Streaming,
    Viewing,
}

/// A peer as listed in the control panel.
pub struct Peer {
    pub id: String,
    pub name: String,
    pub status: PeerStatus,
    /// Round-trip latency in milliseconds, when measured.
    pub latency: Option<u32>,
}

/// The control panel's state (the volume and frame-rate controls, which hold
/// floating-point values, are kept by the user interface itself).
pub struct AppState {
    pub peers: Vec<Peer>,
    pub stream_status: StreamStatus,
    pub muted: bool,
    pub selected_screen: Option<String>,
    pub resolution: String,
    pub quality: String,
    pub hw_accel: bool,
}

impl Default for AppState {
    /// No peers, idle, not muted, no screen chosen, resolution "Auto",
    /// quality "High", hardware acceleration on.
    fn default() -> (s: AppState)
        ensures
            s.peers@.len() == 0,
            s.stream_status == StreamStatus::Idle,
            !s.muted,
            s.selected_screen is None,
            s.resolution@ == "Auto"@,
            s.quality@ == "High"@,
            s.hw_accel,
    {
        AppState {
            peers: Vec::new(),
            stream_status: StreamStatus::Idle,
            muted: false,
            selected_screen: None,
            resolution: String::from_str("Auto"),
            quality: String::from_str("High"),
            hw_accel: true,
        }
    }
}

/// The label of the streaming button and whether it is styled as destructive.
pub struct StreamButton {
    pub label: &'static str,
    pub destructive: bool,
}

/// The status after the streaming button is pressed: streaming stops when it
/// was on, and starts otherwise (also when viewing another peer).
pub open spec fn toggled(status: StreamStatus) -> StreamStatus {
    match status {
        StreamStatus::Streaming => StreamStatus::Idle,
        _ => StreamStatus::Streaming,
    }
}

/// The title-bar text of a stream status.
pub open spec fn status_text_spec(status: StreamStatus) -> Seq<char> {
    match status {
        StreamStatus::Idle => "Idle"@,
        StreamStatus::Streaming => "Streaming"@,
        StreamStatus::Viewing => "Viewing"@,
    }
}

/// The title-bar text of a stream status.
pub fn stream_status_text(status: StreamStatus) -> (s: &'static str)
    ensures
        s@ == status_text_spec(status),
{
    match status {
        StreamStatus::Idle => "Idle",
        StreamStatus::Streaming => "Streaming",
        StreamStatus::Viewing => "Viewing",
    }
}

/// The extra style class of the title-bar status indicator, if any.
pub fn stream_status_class(status: StreamStatus) -> (c: Option<&'static str>)
    ensures
        status == StreamStatus::Idle ==> (c matches Some(s) && s@ == "idle"@),
        status == StreamStatus::Streaming ==> (c matches Some(s) && s@ == "streaming"@),
        status == StreamStatus::Viewing ==> c is None,
{
    match status {
        StreamStatus::Idle => Some("idle"),
        StreamStatus::Streaming => Some("streaming"),
        StreamStatus::Viewing => None,
    }
}

impl AppState {
    /// Handles a press of the streaming button: toggles the stream status and
    /// says how the button looks afterwards ("Stop Streaming", destructive,
    /// while streaming; "Start Streaming" otherwise).
    pub fn toggle_streaming(&mut self) -> (b: StreamButton)
        ensures
            final(self).stream_status == toggled(old(self).stream_status),
            final(self).peers@ == old(self).peers@,
            final(self).muted == old(self).muted,
            final(self).selected_screen == old(self).selected_screen,
            final(self).resolution == old(self).resolution,
            final(self).quality == old(self).quality,
            final(self).hw_accel == old(self).hw_accel,
            b.destructive == (final(self).stream_status == StreamStatus::Streaming),
            b.destructive ==> b.label@ == "Stop Streaming"@,
            !b.destructive ==> b.label@ == "Start Streaming"@,
    {
        match self.stream_status {
            StreamStatus::Idle | StreamStatus::Viewing => {
                self.stream_status = StreamStatus::Streaming;
                StreamButton { label: "Stop Streaming", destructive: true }
            },
            StreamStatus::Streaming => {
                self.stream_status = StreamStatus::Idle;
                StreamButton { label: "Start Streaming", destructive: false }
            },
        }
    }

    /// Records the display source picked in the selector; an empty selection
    /// keeps the previous choice.
    pub fn select_screen(&mut self, choice: Option<String>)
        ensures
            final(self).selected_screen == match choice {
                Some(text) => Some(text),
                None => old(self).selected_screen,
            },
            final(self).quality == old(self).quality,
            final(self).stream_status == old(self).stream_status,
            final(self).peers@ == old(self).peers@,
            final(self).muted == old(self).muted,
            final(self).resolution == old(self).resolution,
            final(self).hw_accel == old(self).hw_accel,
    {
        if let Some(text) = choice {
            self.selected_screen = Some(text);
        }
    }

    /// Records the quality preset picked in the selector; an empty selection
    /// keeps the previous preset.
    pub fn select_quality(&mut self, choice: Option<String>)
        ensures
            final(self).quality == match choice {
                Some(text) => text,
                None => old(self).quality,
            },
            final(self).selected_screen == old(self).selected_screen,
            final(self).stream_status == old(self).stream_status,
            final(self).peers@ == old(self).peers@,
            final(self).muted == old(self).muted,
            final(self).resolution == old(self).resolution,
            final(self).hw_accel == old(self).hw_accel,
    {
        if let Some(text) = choice {
            self.quality = text;
        }
    }

    /// Records the state of the mute switch.
    pub fn set_muted(&mut self, enabled: bool)
        ensures
            final(self).muted == enabled,
            final(self).peers@ == old(self).peers@,
            final(self).stream_status == old(self).stream_status,
            final(self).selected_screen == old(self).selected_screen,
            final(self).resolution == old(self).resolution,
            final(self).quality == old(self).quality,
            final(self).hw_accel == old(self).hw_accel,
    {
        self.muted = enabled;
    }

    /// Records the state of the hardware-acceleration switch.
    pub fn set_hw_accel(&mut self, enabled: bool)
        ensures
            final(self).hw_accel == enabled,
            final(self).peers@ == old(self).peers@,
            final(self).stream_status == old(self).stream_status,
            final(self).muted == old(self).muted,
            final(self).selected_screen == old(self).selected_screen,
            final(self).resolution == old(self).resolution,
            final(self).quality == old(self).quality,
    {
        self.hw_accel = enabled;
    }
}

/// Pressing the streaming button twice while idle or streaming returns to
/// where it started; while viewing, the first press starts streaming and the
/// second returns to idle.
pub proof fn toggle_twice(status: StreamStatus)
    ensures
        status != StreamStatus::Viewing ==> toggled(toggled(status)) == status,
        status == StreamStatus::Viewing ==> toggled(status) == StreamStatus::Streaming
            && toggled(toggled(status)) == StreamStatus::Idle,
{
}

/// The status line of a peer: "Online · <latency>ms" when online with a
/// measured latency, otherwise the bare status.
pub open spec fn peer_status_text_spec(status: PeerStatus, latency: Option<u32>) -> Seq<char> {
    match status {
        PeerStatus::Online => match latency {
            Some(ms) => "Online · "@ + decimal(ms as nat) + "ms"@,
            None => "Online"@,
        },
        PeerStatus::Offline => "Offline"@,
        PeerStatus::Connected => "Connected"@,
    }
}

/// The status line of a peer.
pub fn peer_status_text(status: PeerStatus, latency: Option<u32>) -> (s: String)
    ensures
        s@ == peer_status_text_spec(status, latency),
        status == PeerStatus::Connected ==> s@ == "Connected"@,
        status == PeerStatus::Offline ==> s@ == "Offline"@,
        status == PeerStatus::Online && latency is None ==> s@ == "Online"@,
        status == PeerStatus::Online && latency is Some ==> s@ == "Online · "@ + decimal(
            latency->0 as nat,
        ) + "ms"@,
{
    match status {
        PeerStatus::Online => match latency {
            Some(ms) => {
                let mut s = String::from_str("Online · ");
                push_decimal(&mut s, ms);
                s.append("ms");
                s
            },
            None => String::from_str("Online"),
        },
        PeerStatus::Offline => String::from_str("Offline"),
        PeerStatus::Connected => String::from_str("Connected"),
    }
}

/// The style class of a peer's status dot.
pub open spec fn dot_class_spec(status: PeerStatus) -> Seq<char> {
    match status {
        PeerStatus::Online => "status-online"@,
        PeerStatus::Offline => "status-offline"@,
        PeerStatus::Connected => "status-connected"@,
    }
}

/// The style class of a peer's status dot.
pub fn peer_dot_class(status: PeerStatus) -> (c: &'static str)
    ensures
        c@ == dot_class_spec(status),
{
    match status {
        PeerStatus::Online => "status-online",
        PeerStatus::Offline => "status-offline",
        PeerStatus::Connected => "status-connected",
    }
}

/// Whether the connect button of a peer is enabled: every peer but an
/// offline one can be connected to.
pub fn can_connect(status: PeerStatus) -> (b: bool)
    ensures
        b == (status != PeerStatus::Offline),
{
    status != PeerStatus::Offline
}

/// One row of the peer list.
pub struct PeerRow {
    pub peer_id: String,
    pub name: String,
    pub dot_class: &'static str,
    pub status_text: String,
    pub connect_enabled: bool,
}

/// The peers section: a hint when no peer is known, otherwise one row per
/// peer in list order.
pub enum PeerList {
    Empty { message: &'static str },
    Rows(Vec<PeerRow>),
}

/// The row shown for `peer`.
pub open spec fn row_matches(row: PeerRow, peer: Peer) -> bool {
    &&& row.peer_id@ == peer.id@
    &&& row.name@ == peer.name@
    &&& row.dot_class@ == dot_class_spec(peer.status)
    &&& row.status_text@ == peer_status_text_spec(peer.status, peer.latency)
    &&& row.connect_enabled == (peer.status != PeerStatus::Offline)
}

impl AppState {
    /// The content of the peers section.
    pub fn peer_list(&self) -> (l: PeerList)
        ensures
            self.peers@.len() == 0 <==> l is Empty,
            l matches PeerList::Empty { message } ==> message@
                == "No peers discovered\n\nMake sure you're connected to the same network"@,
            l matches PeerList::Rows(rows) ==> rows@.len() == self.peers@.len() && forall|i: int|
                0 <= i < rows@.len() ==> #[trigger] row_matches(rows@[i], self.peers@[i]),
    {
        if self.peers.len() == 0 {
            return PeerList::Empty {
                message: "No peers discovered\n\nMake sure you're connected to the same network",
            };
        }
        let mut rows: Vec<PeerRow> = Vec::new();
        let n = self.peers.len();
        for i in 0..n
            invariant
                n == self.peers@.len(),
                rows@.len() == i,
                forall|j: int| 0 <= j < i ==> #[trigger] row_matches(rows@[j], self.peers@[j]),
        {
            let peer = &self.peers[i];
            let row = PeerRow {
                peer_id: peer.id.clone(),
                name: peer.name.clone(),
                dot_class: peer_dot_class(peer.status),
                status_text: peer_status_text(peer.status, peer.latency),
                connect_enabled: can_connect(peer.status),
            };
            rows.push(row);
        }
        PeerList::Rows(rows)
    }
}

/// Label of a peer's connect button once it has been pressed.
pub fn connect_pressed_label() -> (s: &'static str)
    ensures
        s@ == "Disconnect"@,
{
    "Disconnect"
}

/// A peer's status line names its status; only an online peer's line
/// depends on the latency, which it shows in decimal milliseconds. Distinct
/// statuses never share a line.
pub proof fn status_line_names_the_status(status: PeerStatus, a: Option<u32>, b: Option<u32>)
    ensures
        status != PeerStatus::Online ==> peer_status_text_spec(status, a)
            == peer_status_text_spec(status, b),
        peer_status_text_spec(PeerStatus::Connected, a) == "Connected"@,
        peer_status_text_spec(PeerStatus::Offline, a) == "Offline"@,
        peer_status_text_spec(PeerStatus::Online, None) == "Online"@,
        a matches Some(ms) ==> peer_status_text_spec(PeerStatus::Online, a) == "Online · "@
            + decimal(ms as nat) + "ms"@,
        peer_status_text_spec(PeerStatus::Connected, a) != peer_status_text_spec(
            PeerStatus::Offline,
            b,
        ),
{
    reveal_strlit("Connected");
    reveal_strlit("Offline");
    assert("Connected"@[0] != "Offline"@[0]);
}

} // verus!
