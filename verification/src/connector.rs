//! Connection configuration and the value objects that describe a watch.
//!
//! The connector only carries the caller's choices: a socket-path override
//! and an optional path to the server CLI.  Opening the stream, reading the
//! environment and invoking the CLI are the bootstrap layer's work; the
//! decision logic — which path to use, and what a discovery answer means —
//! lives here.

use vstd::prelude::*;

use crate::error::Error;
use crate::pdu::GetSockNameResponse;

verus! {

/// How to connect to the server.  The bootstrap layer presets the socket
/// path from the environment when it is set there, and otherwise performs
/// discovery through the CLI.
pub struct Connector {
    pub watchman_cli_path: Option<String>,
    pub unix_domain: Option<String>,
}

impl Connector {
    /// A connector with nothing preset: discovery decides.
    pub fn new() -> (r: Connector)
        ensures
            r.watchman_cli_path is None,
            r.unix_domain is None,
    {
        Connector { watchman_cli_path: None, unix_domain: None }
    }

    /// Tell the connector where the server CLI is installed, for when it is
    /// not reachable through the search path.
    pub fn watchman_cli_path(self, path: String) -> (r: Connector)
        ensures
            r.watchman_cli_path == Some(path),
            r.unix_domain == self.unix_domain,
    {
        Connector { watchman_cli_path: Some(path), ..self }
    }

    /// Specify the unix domain socket path, bypassing discovery.
    pub fn unix_domain_socket(self, path: String) -> (r: Connector)
        ensures
            r.unix_domain == Some(path),
            r.watchman_cli_path == self.watchman_cli_path,
    {
        Connector { unix_domain: Some(path), ..self }
    }

    /// Which path resolution takes: the preset socket path when one was
    /// given — a connector with an override never performs discovery — and
    /// otherwise nothing, sending the embedding to the CLI.
    pub fn preset_socket_path(&self) -> (r: Option<&String>)
        ensures
            (match r {
                Some(path) => self.unix_domain == Some(*path),
                None => self.unix_domain is None,
            }),
    {
        match &self.unix_domain {
            Some(path) => Some(path),
            None => None,
        }
    }

    /// The CLI that discovery invokes: the configured location, or the
    /// plain command name, to be found through the search path.
    pub fn cli_command(&self) -> (r: &str)
        ensures
            (match self.watchman_cli_path {
                Some(path) => r@ == path@,
                None => r@ == "watchman"@,
            }),
    {
        match &self.watchman_cli_path {
            Some(path) => path.as_str(),
            None => "watchman",
        }
    }

    /// What a discovery answer from the CLI means: a reported error fails
    /// discovery, a present socket name resolves it, and anything else
    /// lacks the one field that was asked for.  `response_debug` is the
    /// rendering of the whole answer, kept for diagnosis.
    pub fn interpret_sockname_response(response: GetSockNameResponse, response_debug: String) -> (r:
        Result<String, Error>)
        ensures
            (match response.error {
                Some(message) => r matches Err(e) && (e matches Error::WatchmanServerError {
                    message: m,
                    command,
                } && m == message && command@ == "get-sockname"@),
                None => match response.sockname {
                    Some(sockname) => r == Ok::<String, Error>(sockname),
                    None => r matches Err(e) && (e matches Error::MissingField {
                        fieldname,
                        command,
                        response: resp,
                    } && fieldname@ == "sockname"@ && command@ == "get-sockname"@ && resp
                        == response_debug),
                },
            }),
    {
        if let Some(message) = response.error {
            return Err(
                Error::WatchmanServerError {
                    message,
                    command: String::from_str("get-sockname"),
                },
            );
        }
        match response.sockname {
            Some(sockname) => Ok(sockname),
            None => Err(
                Error::MissingField {
                    fieldname: String::from_str("sockname"),
                    command: String::from_str("get-sockname"),
                    response: response_debug,
                },
            ),
        }
    }
}

/// An absolute path: non-empty and rooted.
pub open spec fn spec_is_absolute(p: Seq<char>) -> bool {
    p.len() > 0 && p[0] == '/'
}

/// A canonical path in the filesystem.  The server performs strict name
/// resolution, so the path handed to it must already be the canonical name;
/// producing one from an arbitrary path is filesystem work that the
/// bootstrap layer does.
pub struct CanonicalPath(pub String);

impl CanonicalPath {
    /// Wrap a path that is already canonical.  A canonical path is
    /// absolute, so a relative one is left out here — the unverified caller
    /// must refuse it before calling.
    pub fn with_canonicalized_path(path: String) -> (r: CanonicalPath)
        requires
            spec_is_absolute(path@),
        ensures
            r.0 == path,
    {
        CanonicalPath(path)
    }
}

/// A watched filesystem location.  The server aggregates watches to project
/// boundaries, so a request to watch a subdirectory resolves to the higher
/// project root plus a relative offset below it; this value carries both.
pub struct ResolvedRoot {
    /// The project root the server watches.
    pub root: String,
    /// Where the requested directory sits below the root, if not at it.
    pub relative: Option<String>,
    /// The name of the filesystem watcher the server uses for this root.
    pub watcher: String,
}

impl ResolvedRoot {
    /// The name of the watcher the server is using to monitor the path.
    pub fn watcher(&self) -> (r: &str)
        ensures
            r@ == self.watcher@,
    {
        self.watcher.as_str()
    }

    /// The root of the project that is being watched.
    pub fn project_root(&self) -> (r: &str)
        ensures
            r@ == self.root@,
    {
        self.root.as_str()
    }

    /// The absolute path of the directory whose resolution was requested:
    /// the root itself, or the offset joined below it.  A root that already
    /// ends in a separator — the filesystem root — gets no second one.
    pub open spec fn spec_path(self) -> Seq<char> {
        match self.relative {
            Some(relative) => if self.root@.len() > 0 && self.root@.last() == '/' {
                self.root@ + relative@
            } else {
                self.root@ + "/"@ + relative@
            },
            None => self.root@,
        }
    }

    /// The absolute path to the directory that was resolved.
    pub fn path(&self) -> (r: String)
        ensures
            r@ == self.spec_path(),
    {
        match &self.relative {
            Some(relative) => {
                let n = self.root.as_str().unicode_len();
                let mut r = self.root.clone();
                if n == 0 || self.root.as_str().get_char(n - 1) != '/' {
                    r.append("/");
                }
                r.append(relative.as_str());
                r
            },
            None => self.root.clone(),
        }
    }

    /// The resolved directory, relative to the project root.
    pub fn project_relative_path(&self) -> (r: Option<&str>)
        ensures
            (match r {
                Some(p) => self.relative matches Some(rel) && p@ == rel@,
                None => self.relative is None,
            }),
    {
        match &self.relative {
            Some(relative) => Some(relative.as_str()),
            None => None,
        }
    }
}

} // verus!
