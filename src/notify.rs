//! The messages that other threads address to a window, and the replies
//! that the event loop sends back for queries.
use vstd::prelude::*;
use crate::record::Dimensions;

verus! {

/// A message with no reply: the event loop applies it and sends nothing back.
#[derive(Debug)]
pub enum Command {
    SetInnerSize { width: usize, height: usize },
    SetPosition { x: i64, y: i64 },
    Maximize,
    Restore,
    ToggleFullscreen,
    SetRightStatus(String),
    /// A key action for the window to perform in the given pane.
    PerformAssignment { pane_id: u64, action: String },
    SetConfigOverrides(String),
    CopyToClipboard(String),
}

/// A message that expects exactly one reply.
#[derive(Clone, Copy, Debug, PartialEq, Eq, Structural)]
pub enum Query {
    GetDimensions,
    GetSelectionForPane { pane_id: u64 },
    GetEffectiveConfig,
    GetConfigOverrides,
    LeaderIsActive,
    CompositionStatus,
    ActiveKeyTable,
}

/// The body of a work item: a command, or a query with the identifier of the
/// rendezvous slot its reply goes to.
#[derive(Debug)]
pub enum Message {
    Command(Command),
    Query { id: u64, query: Query },
}

/// A unit of work for the event loop, addressed to one window.
#[derive(Debug)]
pub struct WorkItem {
    pub window: u64,
    pub message: Message,
}

/// A successful answer to a query.
#[derive(Debug)]
pub enum Answer {
    Dimensions(Dimensions),
    Text(String),
    MaybeText(Option<String>),
    Flag(bool),
}

/// Why a query or an operation of the bridge failed.
#[derive(Debug)]
pub enum BridgeError {
    /// The rendezvous channel closed before a reply arrived.
    ChannelClosed,
    /// The window handle no longer resolves to a window.
    WindowGone,
    /// The pane is not in the content registry.
    PaneNotFound(u64),
    /// The window subsystem has not been initialized.
    NotInitialized,
    /// An operating system call failed; the text names the call.
    OsCall(String),
    /// No display is configured as the primary one.
    NoPrimaryDisplay,
    /// Display enumeration kept racing a reconfiguration and gave up.
    RetriesExhausted,
}

/// The one reply to a query.
#[derive(Debug)]
pub struct Reply {
    pub id: u64,
    pub outcome: Result<Answer, BridgeError>,
}

impl WorkItem {
    pub open spec fn is_query(&self) -> bool {
        self.message is Query
    }

    pub open spec fn query_id(&self) -> u64 {
        match self.message {
            Message::Query { id, .. } => id,
            Message::Command(_) => 0,
        }
    }
}

} // verus!
