//! The request façade: building each command's request, sniffing responses
//! for the server's optional error field, and projecting response payloads
//! into caller-facing values.
//!
//! A call's round trip — serialize, enqueue with the coordinator, await the
//! completion slot, then decode — is driven by the embedding; everything
//! the round trip decides is here.  The error sniff is a two-stage decode:
//! first the minimal envelope, checked for a top-level error field, and
//! only on the non-error path the caller's full type.

use vstd::prelude::*;

use crate::connector::CanonicalPath;
use crate::connector::ResolvedRoot;
use crate::error::Error;
use crate::pdu::ClockRequest;
use crate::pdu::ClockRequestParams;
use crate::pdu::ClockResponse;
use crate::pdu::ClockSpec;
use crate::pdu::QueryRequest;
use crate::pdu::QueryRequestCommon;
use crate::pdu::QueryResult;
use crate::pdu::SubscribeCommand;
use crate::pdu::SubscribeRequest;
use crate::pdu::SyncTimeout;
use crate::pdu::WatchProjectRequest;
use crate::pdu::WatchProjectResponse;
use crate::subscription::Subscription;

verus! {

/// The decimal digit `d`.
pub open spec fn spec_digit(d: int) -> char {
    if d == 0 {
        '0'
    } else if d == 1 {
        '1'
    } else if d == 2 {
        '2'
    } else if d == 3 {
        '3'
    } else if d == 4 {
        '4'
    } else if d == 5 {
        '5'
    } else if d == 6 {
        '6'
    } else if d == 7 {
        '7'
    } else if d == 8 {
        '8'
    } else {
        '9'
    }
}

/// The decimal rendering of a number, most significant digit first.
pub open spec fn spec_u64_dec(n: nat) -> Seq<char>
    decreases n,
{
    if n < 10 {
        seq![spec_digit(n as int)]
    } else {
        spec_u64_dec(n / 10).push(spec_digit((n % 10) as int))
    }
}

/// One decimal digit as text.
fn digit_str(d: u64) -> (r: &'static str)
    requires
        d < 10,
    ensures
        r@ == seq![spec_digit(d as int)],
{
    proof {
        reveal_strlit("0");
        reveal_strlit("1");
        reveal_strlit("2");
        reveal_strlit("3");
        reveal_strlit("4");
        reveal_strlit("5");
        reveal_strlit("6");
        reveal_strlit("7");
        reveal_strlit("8");
        reveal_strlit("9");
    }
    let r = match d {
        0 => "0",
        1 => "1",
        2 => "2",
        3 => "3",
        4 => "4",
        5 => "5",
        6 => "6",
        7 => "7",
        8 => "8",
        _ => "9",
    };
    proof {
        assert(r@ =~= seq![spec_digit(d as int)]);
    }
    r
}

/// Append the decimal rendering of `n`.
fn push_u64_dec(s: &mut String, n: u64)
    ensures
        final(s)@ == old(s)@ + spec_u64_dec(n as nat),
    decreases n,
{
    if n >= 10 {
        push_u64_dec(s, n / 10);
    }
    s.append(digit_str(n % 10));
    proof {
        if n >= 10 {
            assert(old(s)@ + spec_u64_dec((n / 10) as nat) + seq![spec_digit((n % 10) as int)]
                =~= old(s)@ + spec_u64_dec(n as nat));
        } else {
            assert(old(s)@ + seq![spec_digit((n % 10) as int)] =~= old(s)@ + spec_u64_dec(
                n as nat,
            ));
        }
    }
}

proof fn lemma_dec_len(n: nat)
    ensures
        spec_u64_dec(n).len() >= 1,
    decreases n,
{
    if n >= 10 {
        lemma_dec_len(n / 10);
    }
}

proof fn lemma_digit_injective(d1: int, d2: int)
    requires
        0 <= d1 < 10,
        0 <= d2 < 10,
        spec_digit(d1) == spec_digit(d2),
    ensures
        d1 == d2,
{
}

proof fn lemma_dec_injective(m: nat, n: nat)
    requires
        spec_u64_dec(m) == spec_u64_dec(n),
    ensures
        m == n,
    decreases m + n,
{
    if m < 10 && n < 10 {
        assert(spec_u64_dec(m)[0] == spec_digit(m as int));
        assert(spec_u64_dec(n)[0] == spec_digit(n as int));
        lemma_digit_injective(m as int, n as int);
    } else if m < 10 {
        lemma_dec_len(n / 10);
        assert(spec_u64_dec(n).len() >= 2);
        assert(false);
    } else if n < 10 {
        lemma_dec_len(m / 10);
        assert(spec_u64_dec(m).len() >= 2);
        assert(false);
    } else {
        let a = spec_u64_dec(m / 10);
        let b = spec_u64_dec(n / 10);
        assert(spec_u64_dec(m).last() == spec_digit((m % 10) as int));
        assert(spec_u64_dec(n).last() == spec_digit((n % 10) as int));
        lemma_digit_injective((m % 10) as int, (n % 10) as int);
        assert(a.push(spec_digit((m % 10) as int)).drop_last() =~= a);
        assert(b.push(spec_digit((n % 10) as int)).drop_last() =~= b);
        assert(a == b);
        lemma_dec_injective(m / 10, n / 10);
    }
}

/// Distinct counter values always generate distinct subscription names, so
/// a process that draws every name from one
/// [`SubscriptionNameCounter`] never files two subscriptions — on any of
/// its clients — under one name.
pub proof fn lemma_subscription_names_unique(argv0: Seq<char>, id1: u64, id2: u64)
    requires
        id1 != id2,
    ensures
        spec_subscription_name(argv0, id1) != spec_subscription_name(argv0, id2),
{
    let p = "sub-["@ + argv0 + "]-"@;
    if spec_subscription_name(argv0, id1) == spec_subscription_name(argv0, id2) {
        assert((p + spec_u64_dec(id1 as nat)).skip(p.len() as int) =~= spec_u64_dec(
            id1 as nat,
        ));
        assert((p + spec_u64_dec(id2 as nat)).skip(p.len() as int) =~= spec_u64_dec(
            id2 as nat,
        ));
        lemma_dec_injective(id1 as nat, id2 as nat);
        assert(false);
    }
}

/// A subscription name: the process identity bracketed between a fixed
/// prefix and the counter's value, so that every subscription of a process
/// gets its own name.
pub open spec fn spec_subscription_name(argv0: Seq<char>, id: u64) -> Seq<char> {
    "sub-["@ + argv0 + "]-"@ + spec_u64_dec(id as nat)
}

/// Generate the name for one subscription instance.
pub fn subscription_name(argv0: &str, id: u64) -> (r: String)
    ensures
        r@ == spec_subscription_name(argv0@, id),
{
    let mut r = String::from_str("sub-[");
    r.append(argv0);
    r.append("]-");
    push_u64_dec(&mut r, id);
    r
}

/// Clone an optional path.
fn clone_opt_string(s: &Option<String>) -> (r: Option<String>)
    ensures
        r == *s,
{
    match s {
        Some(p) => Some(p.clone()),
        None => None,
    }
}

/// The process-wide counter subscription names are generated from: one per
/// process, explicitly initialized, owned by the embedding and injected
/// into [`Client::subscribe`].  Drawing every name from this single,
/// only-growing counter is what keeps names distinct across every client
/// of the process (see [`lemma_subscription_names_unique`]); a counter per
/// connection would hand two connections the same names.
pub struct SubscriptionNameCounter {
    /// The number the next subscription name is generated from.
    pub next_sub_id: u64,
}

impl SubscriptionNameCounter {
    /// A fresh counter whose first subscription will be number one.
    pub fn new() -> (c: SubscriptionNameCounter)
        ensures
            c.next_sub_id == 1,
    {
        SubscriptionNameCounter { next_sub_id: 1 }
    }
}

/// The client core: what every operation decides, free of the transport.
/// It is stateless — the embedding owns the channels, the transport and the
/// process-wide name counter, and drives the round trips.
pub struct Client {}

impl Client {
    /// A client core.
    pub fn new() -> Client {
        Client {}
    }

    /// Classify a raw response by the server's optional top-level error
    /// field.  The shallow decode that reads the field needs the codec's
    /// full decoder, which can panic on hostile bytes (see
    /// [`crate::codec`]), so the embedding performs it where the panic can
    /// be contained and hands the outcome in as `error_field`: `None` when
    /// the buffer did not decode at all (a decode that panics counts as
    /// failed), `Some(None)` when it decoded without an error field,
    /// `Some(Some(m))` when the server reported the error `m`.  A buffer
    /// that does not decode is a deserialization failure; a present error
    /// field fails this one call with the server's message and the
    /// attempted command; otherwise the caller may proceed to the full
    /// typed decode.  The classification is fixed for every value the
    /// decode can yield.
    pub fn interpret_response_pdu(
        pdu: &Vec<u8>,
        error_field: Option<Option<String>>,
        command: &str,
    ) -> (r: Result<(), Error>)
        ensures
            (match error_field {
                None => r matches Err(e) && (e matches Error::Deserialize { data, .. } && data@
                    == pdu@),
                Some(None) => r == Ok::<(), Error>(()),
                Some(Some(message)) => r matches Err(e) && (e
                    matches Error::WatchmanServerError { message: m, command: c } && m == message
                    && c@ == command@),
            }),
    {
        match error_field {
            None => Err(
                Error::Deserialize {
                    message: String::from_str("the response PDU could not be decoded"),
                    data: pdu.clone(),
                },
            ),
            Some(None) => Ok(()),
            Some(Some(message)) => Err(
                Error::WatchmanServerError { message, command: command.to_owned() },
            ),
        }
    }

    /// The request that resolves a canonical path to a watch root.  The
    /// server may first have to crawl the directory recursively, so the
    /// answer can take arbitrarily long — that is expected.
    pub fn resolve_root(&self, path: &CanonicalPath) -> (r: WatchProjectRequest)
        ensures
            r.0@ == "watch-project"@,
            r.1 == path.0,
    {
        WatchProjectRequest(String::from_str("watch-project"), path.0.clone())
    }

    /// What the server's answer to watch-project resolves to.
    pub fn resolve_root_response(response: WatchProjectResponse) -> (r: ResolvedRoot)
        ensures
            r.root == response.watch,
            r.relative == response.relative_path,
            r.watcher == response.watcher,
    {
        ResolvedRoot {
            root: response.watch,
            relative: response.relative_path,
            watcher: response.watcher,
        }
    }

    /// The request for a one-shot query against a resolved root: the
    /// caller's parameters, with the root's path offset injected so the
    /// query is scoped to the directory that was resolved.
    pub fn query(&self, root: &ResolvedRoot, query: QueryRequestCommon) -> (r: QueryRequest)
        ensures
            r.0@ == "query"@,
            r.1 == root.root,
            r.2 == (QueryRequestCommon { relative_root: root.relative, ..query }),
    {
        let QueryRequestCommon { relative_root: _, fields, glob } = query;
        QueryRequest(
            String::from_str("query"),
            root.root.clone(),
            QueryRequestCommon { relative_root: clone_opt_string(&root.relative), fields, glob },
        )
    }

    /// The subscribe command for a new subscription, and the handle that
    /// will cursor over its deliveries.  The name is generated from the
    /// process identity and the injected process-wide counter, which is
    /// advanced, so each call in the process gets a fresh name; the
    /// embedding must register the handle's delivery channel with the
    /// coordinator before sending the command.
    pub fn subscribe(
        &self,
        root: &ResolvedRoot,
        query: SubscribeRequest,
        argv0: &str,
        counter: &mut SubscriptionNameCounter,
    ) -> (r: (Subscription, SubscribeCommand))
        requires
            old(counter).next_sub_id < u64::MAX,
        ensures
            final(counter).next_sub_id == old(counter).next_sub_id + 1,
            r.0.name@ == spec_subscription_name(argv0@, old(counter).next_sub_id),
            r.0.root == *root,
            !r.0.canceled,
            r.1.0@ == "subscribe"@,
            r.1.1 == root.root,
            r.1.2 == r.0.name,
            r.1.3 == (SubscribeRequest { relative_root: root.relative, ..query }),
    {
        let name = subscription_name(argv0, counter.next_sub_id);
        counter.next_sub_id = counter.next_sub_id + 1;
        let SubscribeRequest { relative_root: _, fields, since } = query;
        let command = SubscribeCommand(
            String::from_str("subscribe"),
            root.root.clone(),
            name.clone(),
            SubscribeRequest { relative_root: clone_opt_string(&root.relative), fields, since },
        );
        let root_copy = ResolvedRoot {
            root: root.root.clone(),
            relative: clone_opt_string(&root.relative),
            watcher: root.watcher.clone(),
        };
        (Subscription::new(name, root_copy), command)
    }

    /// The query that expands glob patterns into matching file names: the
    /// patterns, scoped to the root, asking only for each file's name.
    pub fn glob(&self, root: &ResolvedRoot, globs: Vec<String>) -> (r: QueryRequest)
        ensures
            r.0@ == "query"@,
            r.1 == root.root,
            r.2.relative_root == root.relative,
            r.2.glob == Some(globs),
            r.2.fields@.len() == 1 && r.2.fields@[0]@ == "name"@,
    {
        let mut fields: Vec<String> = Vec::new();
        fields.push(String::from_str("name"));
        QueryRequest(
            String::from_str("query"),
            root.root.clone(),
            QueryRequestCommon {
                relative_root: clone_opt_string(&root.relative),
                fields,
                glob: Some(globs),
            },
        )
    }

    /// The file names a glob query's answer holds, in the server's order;
    /// an answer without a file list expands to nothing.
    pub fn glob_response(result: QueryResult) -> (r: Vec<String>)
        ensures
            (match result.files {
                Some(files) => r == files,
                None => r@.len() == 0,
            }),
    {
        match result.files {
            Some(files) => files,
            None => Vec::new(),
        }
    }

    /// The request for the current position in the change stream.  Unless
    /// the cookie is disabled, the server creates a sync cookie and waits
    /// for it, so the position reflects every change before the call.
    pub fn clock(&self, root: &ResolvedRoot, sync_timeout: SyncTimeout) -> (r: ClockRequest)
        ensures
            r.0@ == "clock"@,
            r.1 == root.root,
            r.2 == (ClockRequestParams { sync_timeout }),
    {
        ClockRequest(
            String::from_str("clock"),
            root.root.clone(),
            ClockRequestParams { sync_timeout },
        )
    }

    /// The position a clock answer carries.
    pub fn clock_response(response: ClockResponse) -> (r: ClockSpec)
        ensures
            r == response.clock,
    {
        response.clock
    }
}

} // verus!
