//! The providers' record of which consumers subscribed to which entities.

use vstd::prelude::*;
use crate::collections::{TextMap, TextSet, texts_of};

verus! {

/// The record after a consumer at `uri` subscribes to `entity_id`.
pub open spec fn spec_subscribe(
    m: Map<Seq<char>, Set<Seq<char>>>,
    entity_id: Seq<char>,
    uri: Seq<char>,
) -> Map<Seq<char>, Set<Seq<char>>> {
    let uris = if m.contains_key(entity_id) { m[entity_id] } else { Set::empty() };
    m.insert(entity_id, uris.insert(uri))
}

/// The consumer URIs subscribed to `entity_id` (none when it is not in the record).
pub open spec fn spec_subscribers(m: Map<Seq<char>, Set<Seq<char>>>, entity_id: Seq<char>) -> Set<Seq<char>> {
    if m.contains_key(entity_id) { m[entity_id] } else { Set::empty() }
}

/// Maps an entity id to the URIs of the consumers subscribed to it.
pub struct SubscriptionMap {
    map: TextMap<TextSet>,
}

impl SubscriptionMap {
    /// The record, by entity id.
    pub closed spec fn as_map(self) -> Map<Seq<char>, Set<Seq<char>>> {
        self.map@.map_values(|s: TextSet| s@)
    }

    /// An empty record.
    pub fn new() -> (m: Self)
        ensures
            m@ == Map::<Seq<char>, Set<Seq<char>>>::empty(),
    {
        let m = SubscriptionMap { map: TextMap::new() };
        assert(m@ =~= Map::<Seq<char>, Set<Seq<char>>>::empty());
        m
    }

    /// Record that the consumer at `consumer_uri` subscribes to `entity_id`.
    ///
    /// # Arguments
    /// * `entity_id` - The entity id.
    /// * `consumer_uri` - The consumer's URI.
    pub fn subscribe(&mut self, entity_id: String, consumer_uri: String)
        ensures
            final(self)@ == spec_subscribe(old(self)@, entity_id@, consumer_uri@),
    {
        let ghost old_map = self@;
        let mut uris = match self.map.remove(entity_id.as_str()) {
            Some(uris) => uris,
            None => TextSet::new(),
        };
        uris.insert(consumer_uri);
        self.map.insert(entity_id, uris);
        assert(self@ =~= spec_subscribe(old_map, entity_id@, consumer_uri@));
    }

    /// The URIs subscribed to `entity_id`, if it is in the record.
    pub fn get(&self, entity_id: &str) -> (r: Option<&TextSet>)
        ensures
            r is None <==> !self@.contains_key(entity_id@),
            r matches Some(s) ==> s@ == self@[entity_id@],
    {
        self.map.get(entity_id)
    }

    /// The URIs to publish a value of `entity_id` to, each once.
    ///
    /// # Arguments
    /// * `entity_id` - The entity id.
    pub fn subscribers(&self, entity_id: &str) -> (v: Vec<String>)
        ensures
            texts_of(v@).to_set() == spec_subscribers(self@, entity_id@),
            texts_of(v@).no_duplicates(),
    {
        match self.map.get(entity_id) {
            Some(uris) => uris.to_vec(),
            None => {
                let v: Vec<String> = Vec::new();
                assert(texts_of(v@) =~= Seq::<Seq<char>>::empty());
                assert(texts_of(v@).to_set() =~= Set::<Seq<char>>::empty());
                v
            },
        }
    }
}

impl View for SubscriptionMap {
    type V = Map<Seq<char>, Set<Seq<char>>>;

    open spec fn view(&self) -> Map<Seq<char>, Set<Seq<char>>> {
        self.as_map()
    }
}

/// After a subscription the consumer is among the entity's subscribers, and
/// every other entity's subscribers are as they were.
pub proof fn lemma_subscribe_records_consumer(
    m: Map<Seq<char>, Set<Seq<char>>>,
    entity_id: Seq<char>,
    uri: Seq<char>,
    other: Seq<char>,
)
    ensures
        spec_subscribers(spec_subscribe(m, entity_id, uri), entity_id).contains(uri),
        spec_subscribers(spec_subscribe(m, entity_id, uri), entity_id)
            == spec_subscribers(m, entity_id).insert(uri),
        other != entity_id ==> spec_subscribers(spec_subscribe(m, entity_id, uri), other)
            == spec_subscribers(m, other),
{
}

/// Subscribing the same consumer to the same entity again changes nothing.
pub proof fn lemma_subscribe_idempotent(m: Map<Seq<char>, Set<Seq<char>>>, entity_id: Seq<char>, uri: Seq<char>)
    ensures
        spec_subscribe(spec_subscribe(m, entity_id, uri), entity_id, uri) == spec_subscribe(m, entity_id, uri),
{
    let once = spec_subscribe(m, entity_id, uri);
    assert(once[entity_id].insert(uri) =~= once[entity_id]);
    assert(spec_subscribe(once, entity_id, uri) =~= once);
}

/// The record does not depend on the order in which two subscriptions arrive.
pub proof fn lemma_subscribe_commutes(
    m: Map<Seq<char>, Set<Seq<char>>>,
    id1: Seq<char>,
    uri1: Seq<char>,
    id2: Seq<char>,
    uri2: Seq<char>,
)
    ensures
        spec_subscribe(spec_subscribe(m, id1, uri1), id2, uri2)
            == spec_subscribe(spec_subscribe(m, id2, uri2), id1, uri1),
{
    let a = spec_subscribe(spec_subscribe(m, id1, uri1), id2, uri2);
    let b = spec_subscribe(spec_subscribe(m, id2, uri2), id1, uri1);
    if id1 == id2 {
        assert(a[id1] =~= b[id1]);
    }
    assert(a =~= b);
}

} // verus!
