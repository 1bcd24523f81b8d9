//! The error taxonomy of the client.
//!
//! Transport and framing failures are fatal to the whole connection;
//! a server-reported application error fails only the call that caused it.

use vstd::prelude::*;

verus! {

/// Every failure a caller can observe, by category.
#[derive(Debug)]
pub enum Error {
    /// A transport I/O failure, fatal to the whole connection.
    Tokio { message: String },
    /// Discovery of the server endpoint through the CLI failed.
    ConnectionDiscovery { watchman_path: String, reason: String, stderr: String },
    /// The server reported an error for one specific command.
    WatchmanServerError { message: String, command: String },
    /// The server reported an error outside of any command.
    WatchmanResponseError { message: String },
    /// A response lacked a field the caller's contract required.
    MissingField { fieldname: String, command: String, response: String },
    /// The stream ended before a complete message was read.
    Eof,
    /// A byte buffer could not be decoded; the stream is desynchronized.
    Deserialize { message: String, data: Vec<u8> },
    /// A request value could not be serialized.
    Serialize { message: String },
    /// The transport endpoint could not be opened.
    Connect { endpoint: String, message: String },
    /// Any other failure, described in prose.
    Generic(String),
}

impl Error {
    /// Wrap an already-rendered description as a generic error.
    pub fn generic(error: String) -> (r: Error)
        ensures
            r == Error::Generic(error),
    {
        Error::Generic(error)
    }

    /// The rendered description of this error, by variant.
    pub open spec fn spec_message(self) -> Seq<char> {
        match self {
            Error::Tokio { message } => "IO Error: "@ + message@,
            Error::ConnectionDiscovery { watchman_path, reason, stderr } => "While invoking the "@
                + watchman_path@ + " CLI to discover the server connection details: "@ + reason@
                + ", stderr=`"@ + stderr@ + "`"@,
            Error::WatchmanServerError { message, command } => "The watchman server reported an error: \""@
                + message@ + "\", while executing command: "@ + command@,
            Error::WatchmanResponseError { message } => "The watchman server reported an error: \""@
                + message@ + "\""@,
            Error::MissingField { fieldname, command, response } => "The watchman server didn't return a value for field `"@
                + fieldname@ + "` in response to a `"@ + command@ + "` command. "@ + response@,
            Error::Eof => "Unexpected EOF from server"@,
            Error::Deserialize { message, data } => message@,
            Error::Serialize { message } => message@,
            Error::Connect { endpoint, message } => "while attempting to connect to "@ + endpoint@
                + ": "@ + message@,
            Error::Generic(message) => message@,
        }
    }

    /// Render the error as one line of text.
    pub fn message(&self) -> (r: String)
        ensures
            r@ == self.spec_message(),
    {
        match self {
            Error::Tokio { message } => {
                let mut r = String::from_str("IO Error: ");
                r.append(message.as_str());
                r
            },
            Error::ConnectionDiscovery { watchman_path, reason, stderr } => {
                let mut r = String::from_str("While invoking the ");
                r.append(watchman_path.as_str());
                r.append(" CLI to discover the server connection details: ");
                r.append(reason.as_str());
                r.append(", stderr=`");
                r.append(stderr.as_str());
                r.append("`");
                r
            },
            Error::WatchmanServerError { message, command } => {
                let mut r = String::from_str("The watchman server reported an error: \"");
                r.append(message.as_str());
                r.append("\", while executing command: ");
                r.append(command.as_str());
                r
            },
            Error::WatchmanResponseError { message } => {
                let mut r = String::from_str("The watchman server reported an error: \"");
                r.append(message.as_str());
                r.append("\"");
                r
            },
            Error::MissingField { fieldname, command, response } => {
                let mut r = String::from_str(
                    "The watchman server didn't return a value for field `",
                );
                r.append(fieldname.as_str());
                r.append("` in response to a `");
                r.append(command.as_str());
                r.append("` command. ");
                r.append(response.as_str());
                r
            },
            Error::Eof => String::from_str("Unexpected EOF from server"),
            Error::Deserialize { message, data } => message.clone(),
            Error::Serialize { message } => message.clone(),
            Error::Connect { endpoint, message } => {
                let mut r = String::from_str("while attempting to connect to ");
                r.append(endpoint.as_str());
                r.append(": ");
                r.append(message.as_str());
                r
            },
            Error::Generic(message) => message.clone(),
        }
    }
}

} // verus!
