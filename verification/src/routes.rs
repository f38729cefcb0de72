//! Routing: the read-mostly table from source-channel id to the ordered
//! list of destination endpoints that mirror it. A channel with no entry is
//! not mirrored at all; a registered route always has at least one endpoint.

use vstd::prelude::*;

use std::collections::HashMap;

verus! {

/// One destination endpoint: where to send, and how the sent message
/// presents itself there.
#[derive(Clone)]
pub struct WebhookData {
    /// URL of the endpoint the send goes to.
    pub webhook_url: String,
    /// Avatar shown for the mirrored message.
    pub icon_url: String,
    /// Display name shown for the mirrored message.
    pub webhook_username: String,
}

/// The route of one source channel: its id and the endpoints that mirror
/// it, in send order.
pub struct TgChannelData {
    /// The endpoints, attempted in this order.
    pub webhooks: Vec<WebhookData>,
    /// The source channel this route belongs to.
    pub chat_id: i64,
}

/// The table of all routes, keyed by source-channel id. Absence of an entry
/// means "do not mirror this channel".
pub struct RouteTable {
    table: HashMap<i64, TgChannelData>,
}

impl View for RouteTable {
    type V = Map<i64, TgChannelData>;

    closed spec fn view(&self) -> Map<i64, TgChannelData> {
        self.table@
    }
}

impl RouteTable {
    /// Every registered route has at least one endpoint and sits under its
    /// own channel id.
    pub open spec fn wf(&self) -> bool {
        forall|k: i64| #[trigger]
            self@.contains_key(k) ==> self@[k].webhooks@.len() >= 1 && self@[k].chat_id == k
    }

    /// An empty table: no channel is mirrored.
    pub fn new() -> (r: Self)
        ensures
            r@ == Map::<i64, TgChannelData>::empty(),
            r.wf(),
    {
        broadcast use vstd::std_specs::hash::group_hash_axioms;

        RouteTable { table: HashMap::new() }
    }

    /// Register a route under its channel id, replacing any previous route
    /// of that channel. A route with no endpoint is refused and the table
    /// is left as it was.
    pub fn register(&mut self, data: TgChannelData) -> (r: bool)
        requires
            old(self).wf(),
        ensures
            r == (data.webhooks@.len() >= 1),
            r ==> final(self)@ == old(self)@.insert(data.chat_id, data),
            !r ==> final(self)@ == old(self)@,
            final(self).wf(),
    {
        broadcast use vstd::std_specs::hash::group_hash_axioms;

        if data.webhooks.len() == 0 {
            return false;
        }
        let key: i64 = data.chat_id;
        self.table.insert(key, data);
        true
    }

    /// Look the channel up: its route when the channel is mirrored, nothing
    /// when it is not. Nothing else of the pipeline runs for an unmapped
    /// channel.
    pub fn lookup(&self, chat_id: i64) -> (r: Option<&TgChannelData>)
        ensures
            r is Some <==> self@.contains_key(chat_id),
            r matches Some(d) ==> *d == self@[chat_id],
    {
        broadcast use vstd::std_specs::hash::group_hash_axioms;

        self.table.get(&chat_id)
    }
}

} // verus!
