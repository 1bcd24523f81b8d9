//! The message shapes the engine relies on.
//!
//! The wire protocol is self-describing, so these types model only the
//! structure the coordination logic reads and writes: request wrappers
//! carry a command tag, a target root path and command-specific parameters;
//! a response may carry an optional top-level error string; a query result
//! carries optional markers that classify it.  The set of queryable file
//! fields is the caller's business: a field list is carried as plain
//! strings, and file entries are carried as their names.

use vstd::prelude::*;

verus! {

/// A point-in-time position in the change stream, as the server names it.
pub enum ClockSpec {
    /// An opaque clock token.
    StringClock(String),
    /// A unix timestamp, for servers that fall back to wall-clock time.
    UnixEpoch(i64),
}

/// How a clock request synchronizes with pending filesystem activity.
pub enum SyncTimeout {
    /// Let the server choose its default synchronization barrier.
    Default,
    /// Return the instantaneous clock without a synchronization cookie.
    DisableCookie,
    /// Wait for a cookie for up to this many milliseconds.
    Duration { millis: u64 },
}

/// `("watch-project", path)`: ask the server to watch a directory.
pub struct WatchProjectRequest(pub String, pub String);

/// The server's answer to a watch-project request.
pub struct WatchProjectResponse {
    pub version: String,
    /// The project root the server aggregated the watch to.
    pub watch: String,
    /// Where the requested directory sits below that root, if not at it.
    pub relative_path: Option<String>,
    /// The name of the filesystem watcher the server chose.
    pub watcher: String,
}

/// The parameters common to queries and subscriptions.
pub struct QueryRequestCommon {
    /// A path below the project root that scopes the query.
    pub relative_root: Option<String>,
    /// The result fields the caller asked for.
    pub fields: Vec<String>,
    /// Glob patterns to expand, relative to the root.
    pub glob: Option<Vec<String>>,
}

impl Default for QueryRequestCommon {
    /// No scoping, no patterns, and only the file name as a result field.
    fn default() -> (r: QueryRequestCommon)
        ensures
            r.relative_root is None,
            r.fields@.len() == 1 && r.fields@[0]@ == "name"@,
            r.glob is None,
    {
        let mut fields: Vec<String> = Vec::new();
        fields.push(String::from_str("name"));
        QueryRequestCommon { relative_root: None, fields, glob: None }
    }
}

/// `("query", root, parameters)`: a one-shot query.
pub struct QueryRequest(pub String, pub String, pub QueryRequestCommon);

/// A query result, or the payload of one unilateral subscription message.
///
/// The optional markers decide how a subscription classifies the payload;
/// a plain query answer leaves them all unset.
pub struct QueryResult {
    pub version: String,
    /// The position in the change stream this result was produced at.
    pub clock: Option<ClockSpec>,
    /// True when the result is a full re-sync instead of a delta.
    pub is_fresh_instance: bool,
    /// The names of the files that matched, relative to the root.
    pub files: Option<Vec<String>>,
    /// Set on the last message of a canceled subscription.
    pub subscription_canceled: bool,
    /// Set when a named coordination state was entered.
    pub state_enter: Option<String>,
    /// Set when a named coordination state was left.
    pub state_leave: Option<String>,
    /// Metadata attached to a state transition, passed through opaquely.
    pub state_metadata: Option<serde_bser::value::Value>,
}

/// The parameters of a subscribe request.
pub struct SubscribeRequest {
    /// A path below the project root that scopes the subscription.
    pub relative_root: Option<String>,
    /// The result fields delivered with each change notification.
    pub fields: Vec<String>,
    /// Deliver only changes after this position, when set.
    pub since: Option<ClockSpec>,
}

/// `("subscribe", root, name, parameters)`: open a named subscription.
pub struct SubscribeCommand(pub String, pub String, pub String, pub SubscribeRequest);

/// The server's answer to a subscribe request.
pub struct SubscribeResponse {
    pub version: String,
    /// The position of the change stream when the subscription began.
    pub clock: Option<ClockSpec>,
}

/// `("unsubscribe", root, name)`: close a named subscription.
pub struct Unsubscribe(pub String, pub String, pub String);

/// The server's answer to an unsubscribe request.
pub struct UnsubscribeResponse {
    pub version: String,
}

/// The parameters of a clock request.
pub struct ClockRequestParams {
    pub sync_timeout: SyncTimeout,
}

/// `("clock", root, parameters)`: read the current change-stream position.
pub struct ClockRequest(pub String, pub String, pub ClockRequestParams);

/// The server's answer to a clock request.
pub struct ClockResponse {
    pub version: String,
    pub clock: ClockSpec,
}

/// What the server's CLI prints for a get-sockname command.
pub struct GetSockNameResponse {
    pub version: String,
    pub error: Option<String>,
    pub sockname: Option<String>,
}

} // verus!
