//! The connection registry: topic-addressed rooms and identity-addressed
//! notification channels, with lazy channel creation, reference-counted
//! teardown, and fire-and-forget fan-out through bounded, lossy broadcast
//! channels.

use vstd::prelude::*;

use crate::message::WSMessage;

verus! {

// ---------------------------------------------------------------------
// Trusted boundary: tokio's broadcast channel. The registry owns the send
// half of one channel per key; sessions hold receive halves.
// ---------------------------------------------------------------------

/// The send half of a tokio broadcast channel, opaque to the registry's
/// proofs: delivery through it is the delivery of the running system.
#[verifier::external_type_specification]
#[verifier::external_body]
#[verifier::reject_recursive_types(T)]
pub struct ExSender<T>(tokio::sync::broadcast::Sender<T>);

/// The receive half of a tokio broadcast channel; a session pumps it out
/// to its socket.
#[verifier::external_type_specification]
#[verifier::external_body]
#[verifier::reject_recursive_types(T)]
pub struct ExReceiver<T>(tokio::sync::broadcast::Receiver<T>);

/// Relies on `tokio::sync::broadcast::channel`: creates a fan-out channel
/// buffering `capacity` envelopes and returns its send half. The call
/// panics when `capacity` is zero or above `usize::MAX / 2`, so those
/// capacities are excluded here.
#[verifier::external_body]
fn new_channel(capacity: usize) -> (r: tokio::sync::broadcast::Sender<WSMessage>)
    requires
        1 <= capacity <= usize::MAX / 2,
{
    let (sender, _receiver) = tokio::sync::broadcast::channel(capacity);
    sender
}

/// Relies on `tokio::sync::broadcast::Sender::subscribe`: returns a fresh
/// receive half of the sender's channel; it observes the envelopes sent
/// after this call.
#[verifier::external_body]
fn channel_subscribe(
    sender: &tokio::sync::broadcast::Sender<WSMessage>,
) -> (r: tokio::sync::broadcast::Receiver<WSMessage>) {
    sender.subscribe()
}

/// Relies on `tokio::sync::broadcast::Sender::send`: enqueues the envelope
/// for every receive half currently subscribed, without ever blocking the
/// caller; when the channel has no receive half the envelope is dropped
/// and `None` comes back. `Some(n)` is the number of receive halves the
/// envelope was enqueued for, which the source shows is at least one.
#[verifier::external_body]
fn channel_send(
    sender: &tokio::sync::broadcast::Sender<WSMessage>,
    message: WSMessage,
) -> (r: Option<usize>)
    ensures
        r matches Some(n) ==> n >= 1,
{
    match sender.send(message) {
        Ok(receivers) => Some(receivers),
        Err(_) => None,
    }
}

// ---------------------------------------------------------------------
// The abstract registry model: a finite map from key to the number of
// live subscriptions of that key's channel.
// ---------------------------------------------------------------------

/// How one subscribe call moves the registry map: the key's channel is
/// created on demand, and its subscription count grows by one.
pub open spec fn subscribe_step(m: Map<int, nat>, key: int) -> Map<int, nat> {
    m.insert(key, if m.contains_key(key) { (m[key] + 1) as nat } else { 1nat })
}

/// How one unsubscribe call moves the registry map: the last subscription
/// of a key removes the key's channel entirely; earlier ones only lower
/// the count; a key with no channel is left alone.
pub open spec fn unsubscribe_step(m: Map<int, nat>, key: int) -> Map<int, nat> {
    if !m.contains_key(key) {
        m
    } else if m[key] <= 1 {
        m.remove(key)
    } else {
        m.insert(key, (m[key] - 1) as nat)
    }
}

/// Every channel the registry holds has at least one live subscription:
/// presence of a key is never stale bookkeeping.
pub open spec fn all_occupied(m: Map<int, nat>) -> bool {
    forall|k: int| m.contains_key(k) ==> m[k] >= 1
}

// ---------------------------------------------------------------------
// One table of channels, keyed by an i32 identifier.
// ---------------------------------------------------------------------

struct ChannelEntry {
    key: i32,
    subscribers: usize,
    sender: tokio::sync::broadcast::Sender<WSMessage>,
}

/// A table of fan-out channels addressed by key. The abstraction is the
/// map from key to subscription count; the concrete store is a vector of
/// entries with pairwise-distinct keys, each holding the channel's send
/// half.
pub struct ChannelTable {
    entries: Vec<ChannelEntry>,
}

spec fn keys_distinct(s: Seq<ChannelEntry>) -> bool {
    forall|i: int, j: int| 0 <= i < j < s.len() ==> s[i].key != s[j].key
}

spec fn entries_occupied(s: Seq<ChannelEntry>) -> bool {
    forall|i: int| 0 <= i < s.len() ==> s[i].subscribers >= 1
}

spec fn table_map(s: Seq<ChannelEntry>) -> Map<int, nat>
    decreases s.len(),
{
    if s.len() == 0 {
        Map::empty()
    } else {
        table_map(s.drop_last()).insert(s.last().key as int, s.last().subscribers as nat)
    }
}

proof fn lemma_table_map_absent(s: Seq<ChannelEntry>, key: int)
    requires
        forall|j: int| 0 <= j < s.len() ==> s[j].key as int != key,
    ensures
        !table_map(s).contains_key(key),
    decreases s.len(),
{
    if s.len() > 0 {
        lemma_table_map_absent(s.drop_last(), key);
    }
}

proof fn lemma_table_map_index(s: Seq<ChannelEntry>, i: int)
    requires
        keys_distinct(s),
        0 <= i < s.len(),
    ensures
        table_map(s).contains_key(s[i].key as int),
        table_map(s)[s[i].key as int] == s[i].subscribers as nat,
    decreases s.len(),
{
    if i < s.len() - 1 {
        lemma_table_map_index(s.drop_last(), i);
    }
}

proof fn lemma_table_map_push(s: Seq<ChannelEntry>, e: ChannelEntry)
    ensures
        table_map(s.push(e)) == table_map(s).insert(e.key as int, e.subscribers as nat),
{
    assert(s.push(e).drop_last() =~= s);
}

proof fn lemma_table_map_update(s: Seq<ChannelEntry>, i: int, e: ChannelEntry)
    requires
        keys_distinct(s),
        0 <= i < s.len(),
        e.key == s[i].key,
    ensures
        table_map(s.update(i, e)) == table_map(s).insert(e.key as int, e.subscribers as nat),
    decreases s.len(),
{
    let u = s.update(i, e);
    if i == s.len() - 1 {
        assert(u.drop_last() =~= s.drop_last());
        assert(table_map(u) =~= table_map(s).insert(e.key as int, e.subscribers as nat));
    } else {
        assert(u.drop_last() =~= s.drop_last().update(i, e));
        lemma_table_map_update(s.drop_last(), i, e);
        assert(u.last() == s.last());
        assert(table_map(u) =~= table_map(s).insert(e.key as int, e.subscribers as nat));
    }
}

proof fn lemma_table_map_remove(s: Seq<ChannelEntry>, i: int)
    requires
        keys_distinct(s),
        0 <= i < s.len(),
    ensures
        table_map(s.remove(i)) == table_map(s).remove(s[i].key as int),
    decreases s.len(),
{
    let key = s[i].key as int;
    if i == s.len() - 1 {
        assert(s.remove(i) =~= s.drop_last());
        lemma_table_map_absent(s.drop_last(), key);
        assert(table_map(s.remove(i)) =~= table_map(s).remove(key));
    } else {
        assert(s.remove(i).drop_last() =~= s.drop_last().remove(i));
        lemma_table_map_remove(s.drop_last(), i);
        assert(s.remove(i).last() == s.last());
        assert(table_map(s.remove(i)) =~= table_map(s).remove(key));
    }
}

proof fn lemma_table_map_len(s: Seq<ChannelEntry>)
    requires
        keys_distinct(s),
    ensures
        table_map(s).dom().finite(),
        table_map(s).dom().len() == s.len(),
    decreases s.len(),
{
    if s.len() > 0 {
        lemma_table_map_len(s.drop_last());
        lemma_table_map_absent(s.drop_last(), s.last().key as int);
    }
}

impl View for ChannelTable {
    type V = Map<int, nat>;

    closed spec fn view(&self) -> Map<int, nat> {
        table_map(self.entries@)
    }
}

impl ChannelTable {
    /// Well-formedness: keys are unique, and no entry outlives its last
    /// subscription.
    pub closed spec fn inv(&self) -> bool {
        keys_distinct(self.entries@) && entries_occupied(self.entries@)
    }

    /// In a well-formed table every key that is present has at least one
    /// live subscription.
    pub proof fn lemma_occupied(&self)
        requires
            self.inv(),
        ensures
            all_occupied(self@),
    {
        assert forall|k: int| self@.contains_key(k) implies self@[k] >= 1 by {
            if forall|j: int| 0 <= j < self.entries@.len() ==> self.entries@[j].key as int != k {
                lemma_table_map_absent(self.entries@, k);
            } else {
                let j = choose|j: int|
                    0 <= j < self.entries@.len() && self.entries@[j].key as int == k;
                lemma_table_map_index(self.entries@, j);
            }
        }
    }

    pub fn new() -> (r: Self)
        ensures
            r.inv(),
            r@ == Map::<int, nat>::empty(),
    {
        ChannelTable { entries: Vec::new() }
    }

    fn find_index(&self, key: i32) -> (r: Option<usize>)
        requires
            self.inv(),
        ensures
            match r {
                Some(i) => i < self.entries@.len() && self.entries@[i as int].key == key,
                None => !self@.contains_key(key as int),
            },
    {
        let mut i: usize = 0;
        while i < self.entries.len()
            invariant
                i <= self.entries@.len(),
                forall|j: int| 0 <= j < i ==> self.entries@[j].key != key,
            decreases self.entries@.len() - i,
        {
            if self.entries[i].key == key {
                return Some(i);
            }
            i += 1;
        }
        proof {
            lemma_table_map_absent(self.entries@, key as int);
        }
        None
    }

    /// Subscribe to `key`'s channel, creating the channel with the given
    /// buffer capacity if none exists, and return a fresh receive half.
    pub fn subscribe(&mut self, key: i32, capacity: usize) -> (r: tokio::sync::broadcast::Receiver<
        WSMessage,
    >)
        requires
            old(self).inv(),
            1 <= capacity <= usize::MAX / 2,
            old(self)@.contains_key(key as int) ==> old(self)@[key as int] < usize::MAX,
        ensures
            final(self).inv(),
            final(self)@ == subscribe_step(old(self)@, key as int),
    {
        let ghost s0 = self.entries@;
        match self.find_index(key) {
            Some(i) => {
                proof {
                    lemma_table_map_index(s0, i as int);
                }
                let receiver = channel_subscribe(&self.entries[i].sender);
                self.entries[i].subscribers = self.entries[i].subscribers + 1;
                proof {
                    assert(self.entries@ =~= s0.update(i as int, self.entries@[i as int]));
                    lemma_table_map_update(s0, i as int, self.entries@[i as int]);
                }
                receiver
            },
            None => {
                let sender = new_channel(capacity);
                let receiver = channel_subscribe(&sender);
                self.entries.push(ChannelEntry { key, subscribers: 1, sender });
                proof {
                    assert forall|j: int| 0 <= j < s0.len() implies s0[j].key != key by {
                        if s0[j].key == key {
                            lemma_table_map_index(s0, j);
                        }
                    }
                    lemma_table_map_push(s0, self.entries@.last());
                }
                receiver
            },
        }
    }

    /// Drop one subscription of `key`'s channel; the last subscription
    /// removes the channel from the table. Called by a session after its
    /// receive half is gone; a key with no channel is left untouched.
    pub fn unsubscribe(&mut self, key: i32)
        requires
            old(self).inv(),
        ensures
            final(self).inv(),
            final(self)@ == unsubscribe_step(old(self)@, key as int),
    {
        let ghost s0 = self.entries@;
        match self.find_index(key) {
            Some(i) => {
                proof {
                    lemma_table_map_index(s0, i as int);
                }
                if self.entries[i].subscribers <= 1 {
                    self.entries.remove(i);
                    proof {
                        lemma_table_map_remove(s0, i as int);
                    }
                } else {
                    self.entries[i].subscribers = self.entries[i].subscribers - 1;
                    proof {
                        assert(self.entries@ =~= s0.update(i as int, self.entries@[i as int]));
                        lemma_table_map_update(s0, i as int, self.entries@[i as int]);
                    }
                }
            },
            None => {},
        }
    }

    /// Hand the envelope to `key`'s channel for fan-out; with no channel
    /// the publish is silently dropped. Never blocks, never fails the
    /// caller, and never creates an entry.
    pub fn publish(&self, key: i32, message: WSMessage)
        requires
            self.inv(),
    {
        match self.find_index(key) {
            Some(i) => {
                let _ = channel_send(&self.entries[i].sender, message);
            },
            None => {},
        }
    }

    /// Hand one copy of the envelope to every channel in the table,
    /// walking a snapshot of the table at call time.
    pub fn publish_all(&self, message: WSMessage)
        requires
            self.inv(),
    {
        let mut i: usize = 0;
        while i < self.entries.len()
            invariant
                i <= self.entries@.len(),
            decreases self.entries@.len() - i,
        {
            let copy = message.clone();
            let _ = channel_send(&self.entries[i].sender, copy);
            i += 1;
        }
    }

    /// The keys currently holding a channel, each exactly once.
    pub fn keys(&self) -> (r: Vec<i32>)
        requires
            self.inv(),
        ensures
            r@.no_duplicates(),
            forall|j: int| 0 <= j < r@.len() ==> self@.contains_key(r@[j] as int),
            forall|k: i32| self@.contains_key(k as int) ==> r@.contains(k),
    {
        let mut r: Vec<i32> = Vec::new();
        let mut i: usize = 0;
        while i < self.entries.len()
            invariant
                i <= self.entries@.len(),
                r@.len() == i,
                forall|j: int| 0 <= j < i ==> r@[j] == self.entries@[j].key,
            decreases self.entries@.len() - i,
        {
            r.push(self.entries[i].key);
            i += 1;
        }
        proof {
            assert forall|j: int| 0 <= j < r@.len() implies self@.contains_key(
                r@[j] as int,
            ) by {
                lemma_table_map_index(self.entries@, j);
            }
            assert forall|k: i32| self@.contains_key(k as int) implies r@.contains(k) by {
                if forall|j: int|
                    0 <= j < self.entries@.len() ==> self.entries@[j].key as int != k as int {
                    lemma_table_map_absent(self.entries@, k as int);
                } else {
                    let j = choose|j: int|
                        0 <= j < self.entries@.len() && self.entries@[j].key as int == k as int;
                    assert(r@[j] == k);
                }
            }
        }
        r
    }

    /// How many channels the table currently holds.
    pub fn channel_count(&self) -> (r: usize)
        requires
            self.inv(),
        ensures
            r as nat == self@.dom().len(),
    {
        proof {
            lemma_table_map_len(self.entries@);
        }
        self.entries.len()
    }

    /// The number of live subscriptions of `key`'s channel, or `None`
    /// when no channel exists for it.
    pub fn subscriber_count(&self, key: i32) -> (r: Option<usize>)
        requires
            self.inv(),
        ensures
            match r {
                Some(n) => self@.contains_key(key as int) && n as nat == self@[key as int],
                None => !self@.contains_key(key as int),
            },
    {
        match self.find_index(key) {
            Some(i) => {
                proof {
                    lemma_table_map_index(self.entries@, i as int);
                }
                Some(self.entries[i].subscribers)
            },
            None => None,
        }
    }
}

// ---------------------------------------------------------------------
// The process-wide registry.
// ---------------------------------------------------------------------

/// Buffer capacity of every fan-out channel, in pending envelopes. A
/// receiver that falls further behind loses the oldest envelopes; this is
/// a tuning constant, not a protocol guarantee.
pub const CHANNEL_CAPACITY: usize = 100;

/// The single source of truth for who can currently receive what: one
/// table of room channels keyed by mission and one table of notification
/// channels keyed by identity. The identity table's key set is the
/// definition of "online"; no separate flag is kept. The two tables are
/// independent and no operation touches both.
pub struct ConnectionManager {
    channels: ChannelTable,
    user_channels: ChannelTable,
}

impl ConnectionManager {
    /// The room registry: mission key to number of live subscriptions.
    pub closed spec fn topic_channels(&self) -> Map<int, nat> {
        self.channels@
    }

    /// The notification registry: identity key to number of live
    /// subscriptions.
    pub closed spec fn identity_channels(&self) -> Map<int, nat> {
        self.user_channels@
    }

    pub closed spec fn inv(&self) -> bool {
        self.channels.inv() && self.user_channels.inv()
    }

    /// Law: a channel exists only while it is subscribed. In a
    /// well-formed registry every room key and every identity key that is
    /// present has at least one live subscription, so the identity key
    /// set is exactly the set of identities with a live session.
    pub proof fn lemma_channels_occupied(&self)
        requires
            self.inv(),
        ensures
            all_occupied(self.topic_channels()),
            all_occupied(self.identity_channels()),
    {
        self.channels.lemma_occupied();
        self.user_channels.lemma_occupied();
    }

    pub fn new() -> (r: Self)
        ensures
            r.inv(),
            r.topic_channels() == Map::<int, nat>::empty(),
            r.identity_channels() == Map::<int, nat>::empty(),
    {
        ConnectionManager { channels: ChannelTable::new(), user_channels: ChannelTable::new() }
    }

    /// Subscribe to a mission's room channel, creating it on demand.
    pub fn subscribe(&mut self, mission_id: i32) -> (r: tokio::sync::broadcast::Receiver<
        WSMessage,
    >)
        requires
            old(self).inv(),
            old(self).topic_channels().contains_key(mission_id as int) ==> old(
                self,
            ).topic_channels()[mission_id as int] < usize::MAX,
        ensures
            final(self).inv(),
            final(self).topic_channels() == subscribe_step(
                old(self).topic_channels(),
                mission_id as int,
            ),
            final(self).identity_channels() == old(self).identity_channels(),
    {
        self.channels.subscribe(mission_id, CHANNEL_CAPACITY)
    }

    /// Drop one room subscription; the mission's channel is removed when
    /// the last subscription goes.
    pub fn unsubscribe(&mut self, mission_id: i32)
        requires
            old(self).inv(),
        ensures
            final(self).inv(),
            final(self).topic_channels() == unsubscribe_step(
                old(self).topic_channels(),
                mission_id as int,
            ),
            final(self).identity_channels() == old(self).identity_channels(),
    {
        self.channels.unsubscribe(mission_id)
    }

    /// Publish to all current subscribers of a mission's room. With no
    /// room the envelope is silently dropped; no entry is created and no
    /// failure reaches the caller.
    pub fn broadcast(&self, mission_id: i32, message: WSMessage)
        requires
            self.inv(),
    {
        self.channels.publish(mission_id, message)
    }

    /// Subscribe to an identity's notification channel, creating it on
    /// demand; the identity thereby counts as online.
    pub fn subscribe_user(&mut self, user_id: i32) -> (r: tokio::sync::broadcast::Receiver<
        WSMessage,
    >)
        requires
            old(self).inv(),
            old(self).identity_channels().contains_key(user_id as int) ==> old(
                self,
            ).identity_channels()[user_id as int] < usize::MAX,
        ensures
            final(self).inv(),
            final(self).identity_channels() == subscribe_step(
                old(self).identity_channels(),
                user_id as int,
            ),
            final(self).topic_channels() == old(self).topic_channels(),
    {
        self.user_channels.subscribe(user_id, CHANNEL_CAPACITY)
    }

    /// Drop one identity subscription; the identity's channel is removed,
    /// and the identity goes offline, when the last subscription goes.
    pub fn unsubscribe_user(&mut self, user_id: i32)
        requires
            old(self).inv(),
        ensures
            final(self).inv(),
            final(self).identity_channels() == unsubscribe_step(
                old(self).identity_channels(),
                user_id as int,
            ),
            final(self).topic_channels() == old(self).topic_channels(),
    {
        self.user_channels.unsubscribe(user_id)
    }

    /// Deliver a private notification to every current session of one
    /// identity (multi-device behaviour). Silently dropped when the
    /// identity is offline.
    pub fn notify_user(&self, user_id: i32, message: WSMessage)
        requires
            self.inv(),
    {
        self.user_channels.publish(user_id, message)
    }

    /// Hand one copy of the envelope to every identity channel currently
    /// registered, iterating a snapshot of the identity table.
    pub fn broadcast_all(&self, message: WSMessage)
        requires
            self.inv(),
    {
        self.user_channels.publish_all(message)
    }

    /// The identities currently online: exactly the keys of the identity
    /// table, each once, a point-in-time snapshot.
    pub fn get_online_users(&self) -> (r: Vec<i32>)
        requires
            self.inv(),
        ensures
            r@.no_duplicates(),
            forall|j: int|
                0 <= j < r@.len() ==> self.identity_channels().contains_key(r@[j] as int),
            forall|k: i32| self.identity_channels().contains_key(k as int) ==> r@.contains(k),
    {
        self.user_channels.keys()
    }

    /// How many missions currently hold a live room channel.
    pub fn topic_channel_count(&self) -> (r: usize)
        requires
            self.inv(),
        ensures
            r as nat == self.topic_channels().dom().len(),
    {
        self.channels.channel_count()
    }

    /// The number of live subscriptions of a mission's room, or `None`
    /// when the room has no channel.
    pub fn topic_subscriber_count(&self, mission_id: i32) -> (r: Option<usize>)
        requires
            self.inv(),
        ensures
            match r {
                Some(n) => self.topic_channels().contains_key(mission_id as int) && n
                    as nat == self.topic_channels()[mission_id as int],
                None => !self.topic_channels().contains_key(mission_id as int),
            },
    {
        self.channels.subscriber_count(mission_id)
    }

    /// The number of live sessions of one identity, or `None` when the
    /// identity is offline.
    pub fn user_subscriber_count(&self, user_id: i32) -> (r: Option<usize>)
        requires
            self.inv(),
        ensures
            match r {
                Some(n) => self.identity_channels().contains_key(user_id as int) && n
                    as nat == self.identity_channels()[user_id as int],
                None => !self.identity_channels().contains_key(user_id as int),
            },
    {
        self.user_channels.subscriber_count(user_id)
    }
}

impl Default for ConnectionManager {
    fn default() -> (r: Self)
        ensures
            r.inv(),
            r.topic_channels() == Map::<int, nat>::empty(),
            r.identity_channels() == Map::<int, nat>::empty(),
    {
        ConnectionManager::new()
    }
}

// ---------------------------------------------------------------------
// Laws of the registry map.
// ---------------------------------------------------------------------

/// Law: the registry only ever moves between occupied maps — neither a
/// subscribe nor an unsubscribe leaves a channel with zero subscriptions
/// behind, so the key set always reads as "who is subscribed right now".
pub proof fn lemma_steps_preserve_occupancy(m: Map<int, nat>, key: int)
    requires
        all_occupied(m),
    ensures
        all_occupied(subscribe_step(m, key)),
        all_occupied(unsubscribe_step(m, key)),
{
}

/// Law: one full subscribe/unsubscribe round trip on any key leaves the
/// registry map exactly as it was — a channel created on demand is
/// collected with its last subscription, so churn leaves no residue.
pub proof fn lemma_gc_round_trip(m: Map<int, nat>, key: int)
    requires
        all_occupied(m),
    ensures
        unsubscribe_step(subscribe_step(m, key), key) == m,
{
    if m.contains_key(key) {
        assert(unsubscribe_step(subscribe_step(m, key), key) =~= m);
    } else {
        assert(unsubscribe_step(subscribe_step(m, key), key) =~= m);
    }
}

/// `rounds` subscribe/unsubscribe round trips on `key`, one after the
/// other.
pub open spec fn churn(m: Map<int, nat>, key: int, rounds: nat) -> Map<int, nat>
    decreases rounds,
{
    if rounds == 0 {
        m
    } else {
        unsubscribe_step(subscribe_step(churn(m, key, (rounds - 1) as nat), key), key)
    }
}

/// Law: subscribing and then fully unsubscribing any number of times
/// leaves no state distinguishable from never having subscribed — the
/// registry map does not grow under repeated churn.
pub proof fn lemma_gc_idempotent(m: Map<int, nat>, key: int, rounds: nat)
    requires
        all_occupied(m),
    ensures
        churn(m, key, rounds) == m,
    decreases rounds,
{
    if rounds > 0 {
        lemma_gc_idempotent(m, key, (rounds - 1) as nat);
        lemma_gc_round_trip(m, key);
    }
}

} // verus!
