//! The request façade: building requests, sniffing the server's error
//! field, a codec round trip, and connection configuration.

use std::collections::HashMap;

use serde_bser::value::Value;
use watchman_client::client::subscription_name;
use watchman_client::client::Client;
use watchman_client::connector::CanonicalPath;
use watchman_client::connector::Connector;
use watchman_client::connector::ResolvedRoot;
use watchman_client::error::Error;
use watchman_client::pdu::ClockSpec;
use watchman_client::pdu::ClockResponse;
use watchman_client::pdu::GetSockNameResponse;
use watchman_client::pdu::QueryRequestCommon;
use watchman_client::pdu::QueryResult;
use watchman_client::pdu::SyncTimeout;
use watchman_client::pdu::WatchProjectResponse;

/// The shallow error-field sniff the embedding performs on a response
/// before handing it to the library.  The buffers built here are well
/// formed, so no panic containment is needed.
fn sniff_error_field(pdu: &[u8]) -> Option<Option<String>> {
    match serde_bser::from_slice::<Value>(pdu) {
        Ok(Value::Object(m)) => match m.get("error") {
            None | Some(Value::Null) => Some(None),
            Some(Value::Utf8String(s)) => Some(Some(s.clone())),
            Some(_) => None,
        },
        _ => None,
    }
}

fn query_result(files: Option<Vec<String>>) -> QueryResult {
    QueryResult {
        version: "4.9.0".to_string(),
        clock: None,
        is_fresh_instance: false,
        files,
        subscription_canceled: false,
        state_enter: None,
        state_leave: None,
        state_metadata: None,
    }
}

#[test]
fn connection_builder_paths() {
    let builder = Connector::new().unix_domain_socket(String::from("/some/path"));
    assert_eq!(builder.unix_domain, Some(String::from("/some/path")));
}

#[test]
fn glob_returns_the_servers_files_in_order() {
    // Resolve a root, build the glob query, and project the files out of
    // the server's answer: exactly the two names, in the server's order.
    let root = Client::resolve_root_response(WatchProjectResponse {
        version: "4.9.0".to_string(),
        watch: "/repo".to_string(),
        relative_path: None,
        watcher: "inotify".to_string(),
    });
    let client = Client::new();
    let request = client.glob(&root, vec!["**/*.txt".to_string()]);
    assert_eq!(request.0, "query");
    assert_eq!(request.1, "/repo");
    assert_eq!(request.2.glob, Some(vec!["**/*.txt".to_string()]));
    assert_eq!(request.2.fields, vec!["name".to_string()]);

    let answer = query_result(Some(vec!["a.txt".to_string(), "sub/b.txt".to_string()]));
    let files = Client::glob_response(answer);
    assert_eq!(files, vec!["a.txt".to_string(), "sub/b.txt".to_string()]);
}

#[test]
fn glob_without_a_file_list_expands_to_nothing() {
    assert_eq!(Client::glob_response(query_result(None)), Vec::<String>::new());
}

#[test]
fn server_error_field_fails_the_call_with_its_message() {
    // A response carrying {"error": "no such watch"} fails the originating
    // call as a server-reported error, whatever response was expected.
    let mut map: HashMap<String, Value> = HashMap::new();
    map.insert(
        "error".to_string(),
        Value::Utf8String("no such watch".to_string()),
    );
    map.insert("version".to_string(), Value::Utf8String("1".to_string()));
    let pdu = serde_bser::ser::serialize(Vec::new(), &map).unwrap();

    match Client::interpret_response_pdu(&pdu, sniff_error_field(&pdu), "query") {
        Err(Error::WatchmanServerError { message, command }) => {
            assert_eq!(message, "no such watch");
            assert_eq!(command, "query");
        }
        _ => panic!("the error field must fail the call as a server error"),
    }
}

#[test]
fn response_without_error_field_passes_the_sniff() {
    let mut map: HashMap<String, Value> = HashMap::new();
    map.insert("version".to_string(), Value::Utf8String("1".to_string()));
    let pdu = serde_bser::ser::serialize(Vec::new(), &map).unwrap();
    assert!(Client::interpret_response_pdu(&pdu, sniff_error_field(&pdu), "query").is_ok());
}

#[test]
fn undecodable_response_is_a_deserialization_failure() {
    let pdu: Vec<u8> = b"not a pdu at all".to_vec();
    match Client::interpret_response_pdu(&pdu, sniff_error_field(&pdu), "query") {
        Err(Error::Deserialize { data, .. }) => assert_eq!(data, pdu),
        _ => panic!("bytes that do not decode must fail distinctly"),
    }
}

#[test]
fn request_round_trips_through_the_codec() {
    // Serializing a request and decoding a server echo of the same
    // structural shape yields a value equal to what was serialized.
    let mut request: HashMap<String, Value> = HashMap::new();
    request.insert("unilateral".to_string(), Value::Bool(false));
    request.insert("sync_timeout".to_string(), Value::Integer(6000));
    request.insert(
        "fields".to_string(),
        Value::Array(vec![Value::Utf8String("name".to_string())]),
    );
    request.insert("empty".to_string(), Value::Null);

    let wire = serde_bser::ser::serialize(Vec::new(), &Value::Object(request.clone())).unwrap();
    let echoed: Value = serde_bser::from_slice(&wire).unwrap();
    assert_eq!(echoed, Value::Object(request));
}

#[test]
fn resolve_root_request_carries_the_canonical_path() {
    let client = Client::new();
    let path = CanonicalPath::with_canonicalized_path("/repo/sub".to_string());
    let request = client.resolve_root(&path);
    assert_eq!(request.0, "watch-project");
    assert_eq!(request.1, "/repo/sub");
}

#[test]
fn query_request_is_scoped_to_the_resolved_root() {
    let client = Client::new();
    let root = ResolvedRoot {
        root: "/repo".to_string(),
        relative: Some("crate".to_string()),
        watcher: "inotify".to_string(),
    };
    let request = client.query(
        &root,
        QueryRequestCommon {
            relative_root: None,
            fields: vec!["name".to_string(), "size".to_string()],
            glob: None,
        },
    );
    assert_eq!(request.0, "query");
    assert_eq!(request.1, "/repo");
    assert_eq!(request.2.relative_root, Some("crate".to_string()));
    assert_eq!(
        request.2.fields,
        vec!["name".to_string(), "size".to_string()]
    );
}

#[test]
fn clock_request_and_response() {
    let client = Client::new();
    let root = ResolvedRoot {
        root: "/repo".to_string(),
        relative: None,
        watcher: "inotify".to_string(),
    };
    let request = client.clock(&root, SyncTimeout::Duration { millis: 6000 });
    assert_eq!(request.0, "clock");
    assert_eq!(request.1, "/repo");

    let clock = Client::clock_response(ClockResponse {
        version: "4.9.0".to_string(),
        clock: ClockSpec::StringClock("c:123:45".to_string()),
    });
    match clock {
        ClockSpec::StringClock(token) => assert_eq!(token, "c:123:45"),
        _ => panic!("the answer's clock must come back unchanged"),
    }
}

#[test]
fn subscription_names_are_distinct_per_call() {
    assert_eq!(subscription_name("watcher-tool", 1), "sub-[watcher-tool]-1");
    assert_eq!(subscription_name("t", 120), "sub-[t]-120");
    assert_eq!(subscription_name("t", 1234567890), "sub-[t]-1234567890");
    assert_eq!(subscription_name("", 0), "sub-[]-0");
}

#[test]
fn resolved_root_paths() {
    let scoped = ResolvedRoot {
        root: "/repo".to_string(),
        relative: Some("crate".to_string()),
        watcher: "inotify".to_string(),
    };
    assert_eq!(scoped.path(), "/repo/crate");
    assert_eq!(scoped.project_root(), "/repo");
    assert_eq!(scoped.project_relative_path(), Some("crate"));
    assert_eq!(scoped.watcher(), "inotify");

    let at_root = ResolvedRoot {
        root: "/repo".to_string(),
        relative: None,
        watcher: "inotify".to_string(),
    };
    assert_eq!(at_root.path(), "/repo");
    assert_eq!(at_root.project_relative_path(), None);

    // A root that already ends in the separator gets no second one.
    let at_fs_root = ResolvedRoot {
        root: "/".to_string(),
        relative: Some("crate".to_string()),
        watcher: "inotify".to_string(),
    };
    assert_eq!(at_fs_root.path(), "/crate");
}

#[test]
fn sockname_discovery_outcomes() {
    let ok = GetSockNameResponse {
        version: "4.9.0".to_string(),
        error: None,
        sockname: Some("/tmp/w.sock".to_string()),
    };
    assert_eq!(
        Connector::interpret_sockname_response(ok, "{}".to_string()).unwrap(),
        "/tmp/w.sock"
    );

    let reported = GetSockNameResponse {
        version: "4.9.0".to_string(),
        error: Some("poisoned".to_string()),
        sockname: Some("/tmp/w.sock".to_string()),
    };
    match Connector::interpret_sockname_response(reported, "{}".to_string()) {
        Err(Error::WatchmanServerError { message, command }) => {
            assert_eq!(message, "poisoned");
            assert_eq!(command, "get-sockname");
        }
        _ => panic!("a reported error must fail discovery"),
    }

    let missing = GetSockNameResponse {
        version: "4.9.0".to_string(),
        error: None,
        sockname: None,
    };
    match Connector::interpret_sockname_response(missing, "whole answer".to_string()) {
        Err(Error::MissingField { fieldname, command, response }) => {
            assert_eq!(fieldname, "sockname");
            assert_eq!(command, "get-sockname");
            assert_eq!(response, "whole answer");
        }
        _ => panic!("a missing sockname must be reported as such"),
    }
}

#[test]
fn error_messages_render_by_category() {
    let server = Error::WatchmanServerError {
        message: "no such watch".to_string(),
        command: "query".to_string(),
    };
    assert_eq!(
        server.message(),
        "The watchman server reported an error: \"no such watch\", while executing command: query"
    );
    assert_eq!(Error::Eof.message(), "Unexpected EOF from server");
    assert_eq!(
        Error::Generic("boom".to_string()).message(),
        "boom"
    );
    assert_eq!(
        Error::WatchmanResponseError {
            message: "shutting down".to_string()
        }
        .message(),
        "The watchman server reported an error: \"shutting down\""
    );
    assert_eq!(
        Error::MissingField {
            fieldname: "clock".to_string(),
            command: "clock".to_string(),
            response: "{}".to_string(),
        }
        .message(),
        "The watchman server didn't return a value for field `clock` in response to a `clock` command. {}"
    );
}
