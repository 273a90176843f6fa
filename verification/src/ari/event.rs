//! Typed ARI events, as read from WebSocket JSON.
use vstd::prelude::*;

verus! {

/// caller identity
pub struct CallerId {
    pub name: String,
    pub number: String,
}

impl Default for CallerId {
    /// An empty name and number.
    fn default() -> (r: Self)
        ensures
            r.name@ == Seq::<char>::empty(),
            r.number@ == Seq::<char>::empty(),
    {
        CallerId { name: String::new(), number: String::new() }
    }
}

/// dialplan location: context, extension, priority
pub struct DialplanCep {
    pub context: String,
    pub exten: String,
    pub priority: i64,
}

impl Default for DialplanCep {
    /// An empty context and extension at priority 0.
    fn default() -> (r: Self)
        ensures
            r.context@ == Seq::<char>::empty(),
            r.exten@ == Seq::<char>::empty(),
            r.priority == 0,
    {
        DialplanCep { context: String::new(), exten: String::new(), priority: 0 }
    }
}

/// an ARI channel
pub struct Channel {
    pub id: String,
    pub name: String,
    pub state: String,
    pub caller: CallerId,
    pub connected: CallerId,
    pub dialplan: DialplanCep,
}

/// an ARI bridge
pub struct Bridge {
    pub id: String,
    pub technology: String,
    pub bridge_type: String,
    pub channels: Vec<String>,
}

/// an ARI playback
pub struct Playback {
    pub id: String,
    pub media_uri: String,
    pub state: String,
    pub target_uri: String,
}

/// an ARI live recording
pub struct LiveRecording {
    pub name: String,
    pub format: String,
    pub state: String,
    pub target_uri: String,
}

/// all known ARI event types; event types not modeled read as `Unknown`
#[allow(inconsistent_fields)]
pub enum AriEvent {
    StasisStart { channel: Channel, args: Vec<String>, replace_channel: Option<Channel> },
    StasisEnd { channel: Channel },
    ChannelCreated { channel: Channel },
    ChannelDestroyed { channel: Channel, cause: i32, cause_txt: String },
    ChannelStateChange { channel: Channel },
    ChannelDtmfReceived { channel: Channel, digit: String, duration_ms: u32 },
    ChannelHangupRequest { channel: Channel },
    ChannelVarset { channel: Option<Channel>, variable: String, value: String },
    BridgeCreated { bridge: Bridge },
    BridgeDestroyed { bridge: Bridge },
    ChannelEnteredBridge { bridge: Bridge, channel: Channel },
    ChannelLeftBridge { bridge: Bridge, channel: Channel },
    PlaybackStarted { playback: Playback },
    PlaybackFinished { playback: Playback },
    RecordingStarted { recording: LiveRecording },
    RecordingFinished { recording: LiveRecording },
    /// catch-all for event types not yet modeled
    Unknown,
}

} // verus!
