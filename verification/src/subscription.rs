//! The per-subscription cursor over delivered push payloads.
//!
//! Each delivered payload is classified by which optional fields it
//! carries, checked in this order: the cancellation flag first, then a
//! state-enter name, then a state-leave name, and otherwise it is a set of
//! file changes.  Once a cancellation has been observed the handle is
//! closed: every later call reports the cancellation again and never a
//! change-set.

use vstd::prelude::*;

use crate::connector::ResolvedRoot;
use crate::error::Error;
use crate::pdu::QueryResult;
use crate::pdu::Unsubscribe;

verus! {

/// One observed subscription event.
pub enum SubscriptionData {
    /// The subscription was canceled — by a watch deletion, an unmounted
    /// root, a server shutdown, or any other condition that ends the watch.
    /// A canceled subscription delivers no further results.
    Canceled,
    /// Files matching the subscription's criteria have changed.  Pay
    /// attention to the result's fresh-instance flag: a fresh instance is a
    /// full re-sync, not an incremental delta.
    FilesChanged(QueryResult),
    /// Another client broadcast that the watched project entered a named
    /// coordination state, with state-specific metadata.
    StateEnter { state_name: String, metadata: Option<serde_bser::value::Value> },
    /// The named state ended; the metadata is present only when it ended
    /// cleanly.
    StateLeave { state_name: String, metadata: Option<serde_bser::value::Value> },
}

/// How one delivered payload is classified, by the presence of its optional
/// fields: cancellation first, then state-enter, then state-leave, else a
/// change-set.
pub open spec fn spec_classify(result: QueryResult) -> SubscriptionData {
    if result.subscription_canceled {
        SubscriptionData::Canceled
    } else {
        match result.state_enter {
            Some(state_name) => SubscriptionData::StateEnter {
                state_name,
                metadata: result.state_metadata,
            },
            None => match result.state_leave {
                Some(state_name) => SubscriptionData::StateLeave {
                    state_name,
                    metadata: result.state_metadata,
                },
                None => SubscriptionData::FilesChanged(result),
            },
        }
    }
}

/// A handle to one named subscription.
pub struct Subscription {
    /// The client-generated name the server files pushes under.
    pub name: String,
    /// The watch root the subscription was opened against.
    pub root: ResolvedRoot,
    /// Whether a cancellation has been observed.
    pub canceled: bool,
}

impl Subscription {
    /// A live handle, before any event has been observed.
    pub fn new(name: String, root: ResolvedRoot) -> (s: Subscription)
        ensures
            s.name == name,
            s.root == root,
            !s.canceled,
    {
        Subscription { name, root, canceled: false }
    }

    /// The assigned name for this subscription instance.
    pub fn name(&self) -> (r: &str)
        ensures
            r@ == self.name@,
    {
        self.name.as_str()
    }

    /// Classify the next delivered payload, or the channel's end.
    ///
    /// `delivered` is what the subscription's private channel yielded:
    /// `None` when the channel is closed because the connection was torn
    /// down.  After a cancellation has been observed every call reports the
    /// cancellation again, whatever else might sit in the channel — never a
    /// change-set.
    pub fn next(&mut self, delivered: Option<QueryResult>) -> (r: Result<SubscriptionData, Error>)
        ensures
            final(self).name == old(self).name,
            final(self).root == old(self).root,
            old(self).canceled ==> r == Ok::<SubscriptionData, Error>(SubscriptionData::Canceled)
                && final(self).canceled,
            !old(self).canceled ==> (match delivered {
                Some(result) => r == Ok::<SubscriptionData, Error>(spec_classify(result))
                    && final(self).canceled == result.subscription_canceled,
                None => (r matches Err(e) && e.spec_message() == "client was torn down"@)
                    && !final(self).canceled,
            }),
    {
        if self.canceled {
            return Ok(SubscriptionData::Canceled);
        }
        match delivered {
            None => Err(Error::Generic(String::from_str("client was torn down"))),
            Some(result) => {
                if result.subscription_canceled {
                    self.canceled = true;
                    Ok(SubscriptionData::Canceled)
                } else {
                    let QueryResult {
                        version,
                        clock,
                        is_fresh_instance,
                        files,
                        subscription_canceled,
                        state_enter,
                        state_leave,
                        state_metadata,
                    } = result;
                    match state_enter {
                        Some(state_name) => Ok(
                            SubscriptionData::StateEnter { state_name, metadata: state_metadata },
                        ),
                        None => match state_leave {
                            Some(state_name) => Ok(
                                SubscriptionData::StateLeave {
                                    state_name,
                                    metadata: state_metadata,
                                },
                            ),
                            None => Ok(
                                SubscriptionData::FilesChanged(
                                    QueryResult {
                                        version,
                                        clock,
                                        is_fresh_instance,
                                        files,
                                        subscription_canceled,
                                        state_enter: None,
                                        state_leave: None,
                                        state_metadata,
                                    },
                                ),
                            ),
                        },
                    }
                }
            },
        }
    }

    /// Build the unsubscribe request that gracefully cancels this
    /// subscription.  Sending it again for a subscription the server has
    /// already forgotten is a no-op on the server side.
    pub fn cancel(self) -> (r: Unsubscribe)
        ensures
            r.0@ == "unsubscribe"@,
            r.1 == self.root.root,
            r.2 == self.name,
    {
        Unsubscribe(String::from_str("unsubscribe"), self.root.root, self.name)
    }
}

} // verus!
