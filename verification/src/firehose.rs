//! The firehose client's decisions: what to do with each read outcome, and
//! the URLs used to connect and reconnect. The websocket itself lives at
//! the unverified rim, which feeds read outcomes in and performs the
//! actions handed back.
use vstd::prelude::*;
use vstd::string::StringExecFns;
use crate::text::spec_u64_dec;
use crate::text::u64_dec;

verus! {

/// How far the cursor is rewound on reconnect, to cover in-flight loss.
pub const RECONNECT_REWIND_US: u64 = 2000000;

/// How long a read may stay idle before the client reconnects.
pub const READ_TIMEOUT_SECS: u64 = 2;

/// One outcome of racing a frame read against the idle timer.
pub enum WsEvent {
    /// A text or binary frame with its payload.
    Data(Vec<u8>),
    /// The peer closed the connection.
    Close,
    /// A control or unknown frame, handled by the websocket layer.
    Control,
    /// No frame arrived within the idle timeout.
    TimedOut,
    /// The read itself failed.
    Failed,
}

/// Mathematical image of `WsEvent`.
pub enum WsEventV {
    Data(Seq<u8>),
    Close,
    Control,
    TimedOut,
    Failed,
}

impl View for WsEvent {
    type V = WsEventV;

    open spec fn view(&self) -> WsEventV {
        match self {
            WsEvent::Data(p) => WsEventV::Data(p@),
            WsEvent::Close => WsEventV::Close,
            WsEvent::Control => WsEventV::Control,
            WsEvent::TimedOut => WsEventV::TimedOut,
            WsEvent::Failed => WsEventV::Failed,
        }
    }
}

/// What the reader does next.
pub enum WsAction {
    /// Decode and classify this payload.
    Process(Vec<u8>),
    /// Reconnect with a cursor rewound from the wall clock.
    Reconnect { cursor_us: u64 },
    /// Reconnect without a cursor.
    ReconnectPlain,
    /// Keep reading.
    Wait,
}

/// Mathematical image of `WsAction`.
pub enum WsActionV {
    Process(Seq<u8>),
    Reconnect { cursor_us: u64 },
    ReconnectPlain,
    Wait,
}

impl View for WsAction {
    type V = WsActionV;

    open spec fn view(&self) -> WsActionV {
        match self {
            WsAction::Process(p) => WsActionV::Process(p@),
            WsAction::Reconnect { cursor_us } => WsActionV::Reconnect { cursor_us: *cursor_us },
            WsAction::ReconnectPlain => WsActionV::ReconnectPlain,
            WsAction::Wait => WsActionV::Wait,
        }
    }
}

/// The resumption cursor: the wall clock rewound by two seconds, floored
/// at the epoch.
pub open spec fn spec_reconnect_cursor(now_us: u64) -> u64 {
    if now_us >= RECONNECT_REWIND_US {
        (now_us - RECONNECT_REWIND_US) as u64
    } else {
        0
    }
}

/// The reader's transition: payload frames are processed, a close triggers
/// a plain reconnect, an idle timeout triggers a reconnect with a rewound
/// cursor, and control frames or failed reads leave the loop reading.
pub open spec fn spec_next_action(e: WsEventV, now_us: u64) -> WsActionV {
    match e {
        WsEventV::Data(p) => WsActionV::Process(p),
        WsEventV::Close => WsActionV::ReconnectPlain,
        WsEventV::Control => WsActionV::Wait,
        WsEventV::TimedOut => WsActionV::Reconnect { cursor_us: spec_reconnect_cursor(now_us) },
        WsEventV::Failed => WsActionV::Wait,
    }
}

/// Decide the reader's next step from one read outcome.
pub fn next_action(e: WsEvent, now_us: u64) -> (r: WsAction)
    ensures
        r@ == spec_next_action(e@, now_us),
{
    match e {
        WsEvent::Data(p) => WsAction::Process(p),
        WsEvent::Close => WsAction::ReconnectPlain,
        WsEvent::Control => WsAction::Wait,
        WsEvent::TimedOut => {
            let cursor_us = if now_us >= RECONNECT_REWIND_US {
                now_us - RECONNECT_REWIND_US
            } else {
                0
            };
            WsAction::Reconnect { cursor_us }
        },
        WsEvent::Failed => WsAction::Wait,
    }
}

/// The subscription URL: the host, the two wanted collection globs, the
/// compression flag, and the cursor when resuming.
pub open spec fn spec_connect_url(host: Seq<char>, compress: bool, cursor: Option<u64>) -> Seq<
    char,
> {
    let base = "wss://"@ + host
        + "/subscribe?wantedCollections=app.bsky.graph.*&wantedCollections=app.bsky.feed.*&compress="@
        + (if compress {
        "true"@
    } else {
        "false"@
    });
    match cursor {
        Some(c) => base + "&cursor="@ + spec_u64_dec(c),
        None => base,
    }
}

/// Build the subscription URL.
pub fn connect_url(host: &str, compress: bool, cursor: Option<u64>) -> (r: String)
    ensures
        r@ == spec_connect_url(host@, compress, cursor),
{
    let mut s = String::from_str("wss://");
    s.append(host);
    s.append(
        "/subscribe?wantedCollections=app.bsky.graph.*&wantedCollections=app.bsky.feed.*&compress=",
    );
    if compress {
        s.append("true");
    } else {
        s.append("false");
    }
    match cursor {
        Some(c) => {
            s.append("&cursor=");
            let d = u64_dec(c);
            s.append(d.as_str());
            proof {
                assert(s@ =~= spec_connect_url(host@, compress, cursor));
            }
        },
        None => {
            proof {
                assert(s@ =~= spec_connect_url(host@, compress, cursor));
            }
        },
    }
    s
}

} // verus!
