//! Data model of the sidecar supervisor: server state, sessions, messages,
//! chat requests, and the error taxonomy shared by every operation.
use vstd::prelude::*;
use crate::numfmt::dec_digits;

verus! {

/// Lifecycle status of the supervised sidecar server.
#[derive(Debug, PartialEq)]
pub enum ServerStatus {
    Starting,
    Running,
    Stopped,
    Error(String),
}

impl Clone for ServerStatus {
    fn clone(&self) -> (r: Self)
        ensures
            r == *self,
    {
        match self {
            ServerStatus::Starting => ServerStatus::Starting,
            ServerStatus::Running => ServerStatus::Running,
            ServerStatus::Stopped => ServerStatus::Stopped,
            ServerStatus::Error(m) => ServerStatus::Error(m.clone()),
        }
    }
}

impl ServerStatus {
    /// A server is addressable while it is starting or running.
    pub open spec fn is_live(self) -> bool {
        self is Starting || self is Running
    }
}

/// The canonical base URL for a hostname and port: `http://<hostname>:<port>`.
pub open spec fn base_url_of(hostname: Seq<char>, port: u16) -> Seq<char> {
    "http://"@ + hostname + ":"@ + dec_digits(port as nat)
}

/// Connection details of the tracked sidecar server.
#[derive(Debug, PartialEq)]
pub struct OpenCodeServerInfo {
    pub port: u16,
    pub hostname: String,
    pub pid: Option<u32>,
    pub status: ServerStatus,
    pub base_url: String,
}

impl Clone for OpenCodeServerInfo {
    fn clone(&self) -> (r: Self)
        ensures
            r == *self,
    {
        OpenCodeServerInfo {
            port: self.port,
            hostname: self.hostname.clone(),
            pid: self.pid,
            status: self.status.clone(),
            base_url: self.base_url.clone(),
        }
    }
}

impl OpenCodeServerInfo {
    /// Well-formedness: the base URL is present exactly while the server is
    /// addressable, and is then derived from the hostname and port.
    pub open spec fn wf(self) -> bool {
        &&& self.status.is_live() ==> self.base_url@ == base_url_of(self.hostname@, self.port)
        &&& !self.status.is_live() ==> self.base_url@.len() == 0
    }
}

/// Share link attached to a session.
#[derive(Clone, Debug, PartialEq)]
pub struct ShareInfo {
    pub url: String,
}

/// Creation and update timestamps, in sidecar-defined units.
#[derive(Clone, Debug, PartialEq)]
pub struct TimeInfo {
    pub created: u64,
    pub updated: u64,
}

/// Revert marker of a session.
#[derive(Clone, Debug, PartialEq)]
pub struct RevertInfo {
    pub message_id: String,
    pub part: u32,
    pub snapshot: Option<String>,
}

/// A sidecar-owned conversation; values are cached, never mutated locally.
#[derive(Clone, Debug, PartialEq)]
pub struct OpenCodeSession {
    pub id: String,
    pub parent_id: Option<String>,
    pub share: Option<ShareInfo>,
    pub title: String,
    pub version: String,
    pub time: TimeInfo,
    pub revert: Option<RevertInfo>,
}

/// Token accounting reported with a message.
#[derive(Clone, Debug, PartialEq)]
pub struct TokenInfo {
    pub input: u32,
    pub output: u32,
    pub reasoning: u32,
    pub cache: CacheInfo,
}

/// Cache read/write token counts.
#[derive(Clone, Debug, PartialEq)]
pub struct CacheInfo {
    pub read: u32,
    pub write: u32,
}

/// Working directories reported with a message.
#[derive(Clone, Debug, PartialEq)]
pub struct PathInfo {
    pub cwd: String,
    pub root: String,
}

/// Start and optional end time of a tool invocation.
#[derive(Clone, Debug, PartialEq)]
pub struct ToolTimeInfo {
    pub start: u64,
    pub end: Option<u64>,
}

/// Progress of one tool invocation.  Untyped sidecar values (the tool's
/// input and metadata) are carried as their JSON text.
#[derive(Clone, Debug, PartialEq)]
pub enum ToolState {
    Pending,
    Running {
        input: String,
        time: ToolTimeInfo,
        title: Option<String>,
        metadata: Option<String>,
    },
    Completed {
        input: String,
        output: String,
        time: ToolTimeInfo,
        title: Option<String>,
        metadata: Option<String>,
    },
    Error {
        input: Option<String>,
        error: String,
        time: ToolTimeInfo,
    },
}

/// One part of a message, as the sidecar reports it.
#[derive(Clone, Debug, PartialEq)]
pub enum MessagePart {
    Text { text: String },
    Tool { tool: String, id: String, state: ToolState },
    File { url: String, mime: String, filename: String },
    StepStart,
}

/// A message within a session.  The opaque sidecar fields (`cost`, `error`)
/// are carried as their JSON text.
#[derive(Clone, Debug, PartialEq)]
pub struct OpenCodeMessage {
    pub id: String,
    pub role: String,
    pub session_id: String,
    pub parts: Vec<MessagePart>,
    pub time: TimeInfo,
    pub model_id: Option<String>,
    pub provider_id: Option<String>,
    pub cost: Option<String>,
    pub tokens: Option<TokenInfo>,
    pub error: Option<String>,
}

/// One part of an outgoing chat message.
#[derive(Clone, Debug, PartialEq)]
pub enum UserMessagePart {
    Text { text: String },
    File { url: String, mime: String, filename: String },
}

/// Payload of a chat request sent to the sidecar.
#[derive(Clone, Debug, PartialEq)]
pub struct ChatRequest {
    pub provider_id: String,
    pub model_id: String,
    pub parts: Vec<UserMessagePart>,
}

/// Everything a supervisor, client or relay operation can fail with.
///
/// A per-record decode failure of the event stream is not an error value:
/// the relay forwards such a record on the raw-event topic and goes on.
#[derive(Clone, Debug, PartialEq)]
pub enum OpencodeError {
    /// No runtime binary was found among the preferred candidates.
    RuntimeNotFound,
    /// The sidecar's entry script does not exist.
    SidecarNotFound,
    /// Spawning the sidecar process failed.
    Spawn { detail: String },
    /// The liveness probe never succeeded within the allowed attempts.
    ReadinessTimeout,
    /// No server info is present; the operation needs a tracked server.
    NotRunning,
    /// The sidecar answered with a non-success HTTP status.
    Http { status: u16, body: String },
    /// The sidecar's response body did not match the expected shape.
    Decode,
    /// The event stream connection was answered with a non-success status.
    StreamConnect { status: u16 },
}

} // verus!
