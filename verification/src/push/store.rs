//! The browsers that asked for pushes.
//!
//! Subscriptions are filed by endpoint. Each belongs to the token that made
//! it, and carries a generation that grows each time its endpoint subscribes
//! again.
use vstd::prelude::*;

use crate::clock::Timestamp;
use crate::keyed::Keyed;

verus! {

/// A SHA-256 hash.
pub type TokenHash = [u8; 32];

/// A browser's push subscription.
pub struct Subscription {
    pub endpoint: String,
    pub p256dh: String,
    pub auth: String,
    /// The hash of the token that subscribed.
    pub owner_token_hash: TokenHash,
    pub user_agent: String,
    pub created_at: Timestamp,
    /// How often the endpoint has subscribed again.
    pub generation: u64,
}

impl Clone for Subscription {
    fn clone(&self) -> (res: Self)
        ensures
            res == *self,
    {
        Subscription {
            endpoint: self.endpoint.clone(),
            p256dh: self.p256dh.clone(),
            auth: self.auth.clone(),
            owner_token_hash: self.owner_token_hash,
            user_agent: self.user_agent.clone(),
            created_at: self.created_at,
            generation: self.generation,
        }
    }
}

/// Subscriptions by endpoint.
pub type SubscriptionMap = Map<Seq<char>, Subscription>;

/// Whether two hashes are the same.
pub fn same_hash(a: &TokenHash, b: &TokenHash) -> (res: bool)
    ensures
        res == (a@ == b@),
{
    let mut i: usize = 0;
    while i < 32
        invariant
            i <= 32,
            forall|j: int| 0 <= j < i ==> a@[j] == b@[j],
        decreases 32 - i,
    {
        if a[i] != b[i] {
            assert(a@[i as int] != b@[i as int]);
            return false;
        }
        i = i + 1;
    }
    assert(a@ =~= b@);
    true
}

/// The next generation; the last one is followed by itself.
pub open spec fn next_generation(g: u64) -> u64 {
    if g < u64::MAX {
        (g + 1) as u64
    } else {
        g
    }
}

/// The subscriptions after `sub` subscribed: an endpoint that is known keeps
/// the time of its first subscription and moves to the next generation.
pub open spec fn upserted(subs: SubscriptionMap, sub: Subscription) -> SubscriptionMap {
    let key = sub.endpoint@;
    if subs.contains_key(key) {
        subs.insert(
            key,
            Subscription {
                generation: next_generation(subs[key].generation),
                created_at: subs[key].created_at,
                ..sub
            },
        )
    } else {
        subs.insert(key, sub)
    }
}

/// `endpoint` is filed and belongs to `owner`.
pub open spec fn owns(subs: SubscriptionMap, endpoint: Seq<char>, owner: Seq<u8>) -> bool {
    subs.contains_key(endpoint) && subs[endpoint].owner_token_hash@ == owner
}

/// `endpoint` is filed under the generation that a sender saw.
pub open spec fn unchanged_since(
    subs: SubscriptionMap,
    endpoint: Seq<char>,
    generation: u64,
) -> bool {
    subs.contains_key(endpoint) && subs[endpoint].generation == generation
}

/// The owner of `sub` is among `valid`.
pub open spec fn owner_in(sub: Subscription, valid: Seq<TokenHash>) -> bool {
    exists|i: int| 0 <= i < valid.len() && #[trigger] valid[i]@ == sub.owner_token_hash@
}

/// The subscriptions whose owners are among `valid`.
pub open spec fn retained(subs: SubscriptionMap, valid: Seq<TokenHash>) -> SubscriptionMap {
    Map::new(
        |k: Seq<char>| subs.contains_key(k) && owner_in(subs[k], valid),
        |k: Seq<char>| subs[k],
    )
}

/// The subscriptions that a list holds; of two with the same endpoint the
/// later one counts.
pub open spec fn from_list(list: Seq<Subscription>) -> SubscriptionMap
    decreases list.len(),
{
    if list.len() == 0 {
        Map::empty()
    } else {
        from_list(list.drop_last()).insert(list.last().endpoint@, list.last())
    }
}

/// The subscriptions in `order`.
pub open spec fn listed(order: Seq<Seq<char>>, subs: SubscriptionMap) -> Seq<Subscription> {
    order.map_values(|k: Seq<char>| subs[k])
}

/// The subscriptions in `order` that belong to `owner`.
pub open spec fn listed_for(
    order: Seq<Seq<char>>,
    subs: SubscriptionMap,
    owner: Seq<u8>,
) -> Seq<Subscription>
    decreases order.len(),
{
    if order.len() == 0 {
        Seq::empty()
    } else {
        let before = listed_for(order.drop_last(), subs, owner);
        if subs[order.last()].owner_token_hash@ == owner {
            before.push(subs[order.last()])
        } else {
            before
        }
    }
}

/// Every subscription is filed under its own endpoint.
pub open spec fn filed_by_endpoint(subs: SubscriptionMap) -> bool {
    forall|k: Seq<char>| #[trigger] subs.contains_key(k) ==> subs[k].endpoint@ == k
}

/// The subscriptions of the server.
pub struct SubscriptionStore {
    subs: Keyed<Subscription>,
}

impl View for SubscriptionStore {
    type V = SubscriptionMap;

    closed spec fn view(&self) -> SubscriptionMap {
        self.subs@
    }
}

impl SubscriptionStore {
    #[verifier::type_invariant]
    spec fn wf(self) -> bool {
        filed_by_endpoint(self.subs@)
    }

    /// The order in which the endpoints are listed.
    pub closed spec fn order(self) -> Seq<Seq<char>> {
        self.subs.order()
    }

    /// The store that a saved list describes; an empty one where nothing
    /// readable was saved.
    pub fn load_or_empty(saved: Option<Vec<Subscription>>) -> (res: Self)
        ensures
            res@ == match saved {
                Some(list) => from_list(list@),
                None => Map::empty(),
            },
            filed_by_endpoint(res@),
    {
        let mut subs: Keyed<Subscription> = Keyed::new();
        if let Some(list) = saved {
            let mut i: usize = 0;
            assert(list@.take(0) =~= Seq::<Subscription>::empty());
            while i < list.len()
                invariant
                    i <= list@.len(),
                    filed_by_endpoint(subs@),
                    subs@ == from_list(list@.take(i as int)),
                decreases list@.len() - i,
            {
                subs.insert(list[i].endpoint.clone(), list[i].clone());
                assert(list@.take(i + 1).drop_last() =~= list@.take(i as int));
                i = i + 1;
            }
            assert(list@.take(list@.len() as int) =~= list@);
        }
        SubscriptionStore { subs }
    }

    /// How many subscriptions there are. The order lists each once.
    pub fn len(&self) -> (n: usize)
        ensures
            n == self@.len(),
            n == self.order().len(),
            self@.dom().finite(),
            filed_by_endpoint(self@),
            self.order().no_duplicates(),
            forall|k: Seq<char>| self.order().contains(k) <==> #[trigger] self@.contains_key(k),
    {
        proof {
            use_type_invariant(self);
        }
        self.subs.len()
    }

    /// All subscriptions.
    pub fn snapshot(&self) -> (res: Vec<Subscription>)
        ensures
            res@ == listed(self.order(), self@),
            res@.len() == self@.len(),
            filed_by_endpoint(self@),
            self.order().no_duplicates(),
            forall|k: Seq<char>| self.order().contains(k) <==> #[trigger] self@.contains_key(k),
    {
        let n = self.len();
        let mut res: Vec<Subscription> = Vec::new();
        let mut i: usize = 0;
        while i < n
            invariant
                i <= n,
                n == self.order().len(),
                res@ == listed(self.order().take(i as int), self@),
            decreases n - i,
        {
            res.push(self.subs.value_at(i).clone());
            i = i + 1;
            assert(res@ =~= listed(self.order().take(i as int), self@));
        }
        assert(self.order().take(n as int) =~= self.order());
        res
    }

    /// The subscriptions of one owner.
    pub fn for_owner(&self, owner: &TokenHash) -> (res: Vec<Subscription>)
        ensures
            res@ == listed_for(self.order(), self@, owner@),
            filed_by_endpoint(self@),
            self.order().no_duplicates(),
            forall|k: Seq<char>| self.order().contains(k) <==> #[trigger] self@.contains_key(k),
    {
        let n = self.len();
        let mut res: Vec<Subscription> = Vec::new();
        let mut i: usize = 0;
        assert(self.order().take(0) =~= Seq::<Seq<char>>::empty());
        while i < n
            invariant
                i <= n,
                n == self.order().len(),
                res@ == listed_for(self.order().take(i as int), self@, owner@),
            decreases n - i,
        {
            let sub = self.subs.value_at(i);
            assert(self.order().take(i + 1).drop_last() =~= self.order().take(i as int));
            if same_hash(&sub.owner_token_hash, owner) {
                res.push(sub.clone());
            }
            i = i + 1;
        }
        assert(self.order().take(n as int) =~= self.order());
        res
    }

    /// The subscription of an endpoint.
    pub fn get(&self, endpoint: &str) -> (res: Option<&Subscription>)
        ensures
            match res {
                Some(s) => self@.contains_key(endpoint@) && *s == self@[endpoint@],
                None => !self@.contains_key(endpoint@),
            },
    {
        self.subs.get(endpoint)
    }

    /// Files `sub`; the caller then saves the store.
    pub fn upsert(&mut self, sub: Subscription)
        ensures
            final(self)@ == upserted(old(self)@, sub),
    {
        proof {
            use_type_invariant(&*self);
        }
        let mut taken = SubscriptionStore { subs: Keyed::new() };
        std::mem::swap(&mut taken, self);
        let SubscriptionStore { mut subs } = taken;
        let mut sub = sub;
        if let Some(existing) = subs.get(sub.endpoint.as_str()) {
            sub.generation = existing.generation.saturating_add(1);
            sub.created_at = existing.created_at;
        }
        subs.insert(sub.endpoint.clone(), sub);
        *self = SubscriptionStore { subs };
    }

    fn take_out(&mut self, endpoint: &str)
        ensures
            final(self)@ == old(self)@.remove(endpoint@),
    {
        proof {
            use_type_invariant(&*self);
        }
        let mut taken = SubscriptionStore { subs: Keyed::new() };
        std::mem::swap(&mut taken, self);
        let SubscriptionStore { mut subs } = taken;
        subs.remove(endpoint);
        *self = SubscriptionStore { subs };
    }

    /// Drops the subscription of `endpoint` if it belongs to `owner`, and says
    /// whether it did. If so, the caller saves the store.
    pub fn remove_if_owner(&mut self, endpoint: &str, owner: &TokenHash) -> (removed: bool)
        ensures
            removed == owns(old(self)@, endpoint@, owner@),
            final(self)@ == if removed {
                old(self)@.remove(endpoint@)
            } else {
                old(self)@
            },
    {
        let removed = match self.subs.get(endpoint) {
            Some(s) => same_hash(&s.owner_token_hash, owner),
            None => false,
        };
        if removed {
            self.take_out(endpoint);
        }
        removed
    }

    /// Drops the subscription of `endpoint`, which a push service reported
    /// gone, unless it has subscribed again since the sender saw it; says
    /// whether it did. If so, the caller saves the store.
    pub fn gc_stale(&mut self, endpoint: &str, observed_generation: u64) -> (removed: bool)
        ensures
            removed == unchanged_since(old(self)@, endpoint@, observed_generation),
            final(self)@ == if removed {
                old(self)@.remove(endpoint@)
            } else {
                old(self)@
            },
    {
        let removed = match self.subs.get(endpoint) {
            Some(s) => s.generation == observed_generation,
            None => false,
        };
        if removed {
            self.take_out(endpoint);
        }
        removed
    }

    /// Drops the subscriptions whose owners are not among `valid`, and says
    /// how many there were. If there were any, the caller saves the store.
    pub fn retain_owners(&mut self, valid: &[TokenHash]) -> (removed: usize)
        ensures
            final(self)@ == retained(old(self)@, valid@),
            removed == old(self)@.len() - final(self)@.len(),
            old(self)@.dom().finite(),
            final(self)@.dom().finite(),
            removed == 0 ==> final(self)@ == old(self)@,
    {
        let n = self.len();
        proof {
            use_type_invariant(&*self);
        }
        let mut taken = SubscriptionStore { subs: Keyed::new() };
        std::mem::swap(&mut taken, self);
        let SubscriptionStore { subs } = taken;
        let mut kept: Keyed<Subscription> = Keyed::new();
        let ghost m = subs@;
        let ghost order = subs.order();
        let mut i: usize = 0;
        assert(kept@ =~= retained_among(m, order.take(0), valid@));
        while i < n
            invariant
                i <= n,
                n == order.len(),
                m == subs@,
                order == subs.order(),
                filed_by_endpoint(m),
                filed_by_endpoint(kept@),
                kept@ == retained_among(m, order.take(i as int), valid@),
            decreases n - i,
        {
            let sub = subs.value_at(i);
            let ghost id = order[i as int];
            proof {
                assert forall|k: Seq<char>| #[trigger]
                    order.take(i + 1).contains(k) <==> (order.take(i as int).contains(k) || k
                        == id) by {
                    assert(order.take(i + 1) =~= order.take(i as int).push(id));
                    if order.take(i as int).contains(k) {
                        let j = order.take(i as int).index_of(k);
                        assert(order.take(i + 1)[j] == k);
                    }
                    assert(order.take(i + 1)[i as int] == id);
                }
            }
            if hash_among(&sub.owner_token_hash, valid) {
                kept.insert(sub.endpoint.clone(), sub.clone());
            }
            i = i + 1;
            assert(kept@ =~= retained_among(m, order.take(i as int), valid@));
        }
        proof {
            assert(order.take(n as int) =~= order);
            assert(kept@ =~= retained(m, valid@));
            assert(kept@.dom().subset_of(m.dom()));
            vstd::set_lib::lemma_len_subset(kept@.dom(), m.dom());
            if kept@.dom().len() == m.dom().len() {
                vstd::set_lib::lemma_subset_equality(kept@.dom(), m.dom());
                assert(kept@ =~= m);
            }
        }
        let removed = n - kept.len();
        *self = SubscriptionStore { subs: kept };
        removed
    }
}

spec fn retained_among(
    subs: SubscriptionMap,
    keys: Seq<Seq<char>>,
    valid: Seq<TokenHash>,
) -> SubscriptionMap {
    Map::new(
        |k: Seq<char>| keys.contains(k) && subs.contains_key(k) && owner_in(subs[k], valid),
        |k: Seq<char>| subs[k],
    )
}

fn hash_among(hash: &TokenHash, list: &[TokenHash]) -> (res: bool)
    ensures
        res == exists|i: int| 0 <= i < list@.len() && #[trigger] list@[i]@ == hash@,
{
    let mut i: usize = 0;
    while i < list.len()
        invariant
            i <= list@.len(),
            forall|j: int| 0 <= j < i ==> #[trigger] list@[j]@ != hash@,
        decreases list@.len() - i,
    {
        if same_hash(&list[i], hash) {
            assert(list@[i as int]@ == hash@);
            return true;
        }
        i = i + 1;
    }
    false
}

} // verus!
