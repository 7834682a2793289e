//! The registry of live idle subscriptions: which identifiers exist and which
//! script callback each one notifies.

use crate::types::{phase_text, Phase, SubscriptionId};
use std::collections::HashMap;
use vstd::prelude::*;
use vstd::std_specs::iter::IteratorSpec;

verus! {

broadcast use vstd::std_specs::hash::group_hash_axioms;

/// The longest timeout, in seconds, whose length in milliseconds still fits
/// the protocol's signed 32-bit arithmetic.
pub const MAX_TIMEOUT_SECONDS: i32 = 2_147_483;

/// Why a subscription was not registered.
#[derive(Debug, Clone, Copy, PartialEq, Eq, Structural)]
pub enum RegisterError {
    /// The timeout is negative or too long to express in milliseconds.
    InvalidTimeout,
    /// The identifier already names a live subscription.
    IdentifierInUse,
}

/// The native timer that the idle-notification collaborator is to create
/// for a subscription that was just registered.
#[derive(Debug, Clone, Copy, PartialEq, Eq, Structural)]
pub struct TimerRequest {
    /// The subscription the timer is tied to.
    pub id: SubscriptionId,
    /// The period of inactivity after which the timer fires.
    pub millis: u32,
}

/// The callback invocation that an idle transition results in.
#[derive(Debug, Clone, PartialEq, Eq)]
pub struct Delivery {
    /// The name of the script callback.
    pub callback: String,
    /// Its one argument: `"idled"` or `"resumed"`.
    pub argument: &'static str,
}

/// All live idle subscriptions: the callback name of each, under its
/// identifier. The native timer of a subscription is known by the
/// identifier: it is created for the `TimerRequest` that the registration
/// gives, and destroyed for the identifier that `clear_all` hands out.
#[derive(Debug)]
pub struct NotificationRegistry {
    entries: HashMap<SubscriptionId, String>,
}

/// Whether `seconds` is a timeout that a subscription may have.
pub open spec fn valid_timeout(seconds: i32) -> bool {
    0 <= seconds <= MAX_TIMEOUT_SECONDS
}

/// An identifier carries the marks of a random (version 4) UUID: 0100 in
/// bits 76 to 79 and 10 in bits 62 and 63.
pub open spec fn is_random_uuid(id: u128) -> bool {
    (id >> 76) & 0xf == 4 && (id >> 62) & 0x3 == 2
}

/// Whether an entry stands under the identifier `id`.
pub open spec fn holds(entries: Map<SubscriptionId, Seq<char>>, id: SubscriptionId) -> bool {
    entries.contains_key(id)
}

/// The callback of the entry under the identifier `id`.
pub open spec fn callback_in(entries: Map<SubscriptionId, Seq<char>>, id: SubscriptionId) -> Option<
    Seq<char>,
> {
    if entries.contains_key(id) {
        Some(entries[id])
    } else {
        None
    }
}

/// Each identifier is smaller than those that follow it.
pub open spec fn ascending(ids: Seq<SubscriptionId>) -> bool {
    forall|i: int, j: int| 0 <= i < j < ids.len() ==> ids[i] < ids[j]
}

/// Whether `ids` holds exactly the identifiers in `dom`, in ascending
/// order.
pub open spec fn lists(ids: Seq<SubscriptionId>, dom: Set<SubscriptionId>) -> bool {
    ascending(ids) && ids.to_set() == dom
}

/// The identifiers in `dom`, in ascending order.
pub open spec fn in_order(dom: Set<SubscriptionId>) -> Seq<SubscriptionId> {
    choose|ids: Seq<SubscriptionId>| lists(ids, dom)
}

/// The identifiers of the entries, in ascending order.
pub open spec fn ids_of(entries: Map<SubscriptionId, Seq<char>>) -> Seq<SubscriptionId> {
    in_order(entries.dom())
}

/// The entries after a registration under the identifier `id`: one more
/// entry, unless the identifier is in use, in which case nothing changes.
pub open spec fn after_register(
    entries: Map<SubscriptionId, Seq<char>>,
    id: SubscriptionId,
    callback: Seq<char>,
) -> Map<SubscriptionId, Seq<char>> {
    if entries.contains_key(id) {
        entries
    } else {
        entries.insert(id, callback)
    }
}

/// The entries after the registrations `calls`, made one after another.
pub open spec fn after_registers(
    entries: Map<SubscriptionId, Seq<char>>,
    calls: Seq<(SubscriptionId, Seq<char>)>,
) -> Map<SubscriptionId, Seq<char>>
    decreases calls.len(),
{
    if calls.len() == 0 {
        entries
    } else {
        after_registers(after_register(entries, calls[0].0, calls[0].1), calls.skip(1))
    }
}

/// The identifiers of `calls` differ from one another.
pub open spec fn distinct_ids(calls: Seq<(SubscriptionId, Seq<char>)>) -> bool {
    forall|i: int, j: int|
        0 <= i < j < calls.len() ==> (#[trigger] calls[i]).0 != (#[trigger] calls[j]).0
}

/// A registration never overwrites: what was registered stays as it was,
/// the identifier is registered afterwards, and one entry is added exactly
/// when the identifier was free.
pub proof fn lemma_register_overwrites_nothing(
    entries: Map<SubscriptionId, Seq<char>>,
    id: SubscriptionId,
    callback: Seq<char>,
)
    requires
        entries.dom().finite(),
    ensures
        after_register(entries, id, callback).dom().finite(),
        after_register(entries, id, callback).contains_key(id),
        forall|k: SubscriptionId| #[trigger]
            entries.contains_key(k) ==> after_register(entries, id, callback).contains_key(k)
                && after_register(entries, id, callback)[k] == entries[k],
        forall|k: SubscriptionId|
            k != id ==> (#[trigger] after_register(entries, id, callback).contains_key(k)
                <==> entries.contains_key(k)),
        after_register(entries, id, callback).dom().len() == entries.dom().len() + (if entries.contains_key(
            id,
        ) {
            0int
        } else {
            1int
        }),
{
}

/// Whatever registrations are made, nothing that was registered before is
/// overwritten, and the entries stay finite in number. Where the
/// identifiers of the registrations differ from one another and none was
/// in use, each registration adds its entry.
pub proof fn lemma_registrations_add_up(
    entries: Map<SubscriptionId, Seq<char>>,
    calls: Seq<(SubscriptionId, Seq<char>)>,
)
    requires
        entries.dom().finite(),
    ensures
        after_registers(entries, calls).dom().finite(),
        forall|k: SubscriptionId| #[trigger]
            entries.contains_key(k) ==> after_registers(entries, calls).contains_key(k)
                && after_registers(entries, calls)[k] == entries[k],
        distinct_ids(calls) && (forall|i: int|
            0 <= i < calls.len() ==> !entries.contains_key((#[trigger] calls[i]).0)) ==> {
            &&& after_registers(entries, calls).dom().len() == entries.dom().len() + calls.len()
            &&& forall|i: int|
                0 <= i < calls.len() ==> after_registers(entries, calls).contains_key(
                    (#[trigger] calls[i]).0,
                ) && after_registers(entries, calls)[calls[i].0] == calls[i].1
        },
    decreases calls.len(),
{
    if calls.len() > 0 {
        let first = calls[0];
        let next = after_register(entries, first.0, first.1);
        let rest = calls.skip(1);
        lemma_register_overwrites_nothing(entries, first.0, first.1);
        lemma_registrations_add_up(next, rest);
        let all = after_registers(entries, calls);
        assert(all == after_registers(next, rest));
        if distinct_ids(calls) && (forall|i: int|
            0 <= i < calls.len() ==> !entries.contains_key((#[trigger] calls[i]).0)) {
            assert(!entries.contains_key(calls[0].0));
            assert forall|i: int, j: int| 0 <= i < j < rest.len() implies (#[trigger] rest[i]).0 != (
            #[trigger] rest[j]).0 by {
                assert(rest[i] == calls[i + 1] && rest[j] == calls[j + 1]);
            }
            assert forall|i: int| 0 <= i < rest.len() implies !next.contains_key(
                (#[trigger] rest[i]).0,
            ) by {
                assert(rest[i] == calls[i + 1]);
                assert(calls[0].0 != calls[i + 1].0);
            }
            assert forall|i: int| 0 <= i < calls.len() implies all.contains_key(
                (#[trigger] calls[i]).0,
            ) && all[calls[i].0] == calls[i].1 by {
                if i == 0 {
                    assert(next.contains_key(first.0));
                } else {
                    assert(rest[i - 1] == calls[i]);
                }
            }
        }
    }
}

/// Two ascending lists of the same identifiers are one and the same.
pub proof fn lemma_one_listing(a: Seq<SubscriptionId>, b: Seq<SubscriptionId>)
    requires
        ascending(a),
        ascending(b),
        a.to_set() == b.to_set(),
    ensures
        a == b,
    decreases a.len(),
{
    if a.len() == 0 {
        if b.len() > 0 {
            assert(b.to_set().contains(b[0]));
            assert(a.contains(b[0]));
        }
        assert(a =~= b);
    } else {
        assert(a.to_set().contains(a[0]));
        assert(b.contains(a[0]));
        let x = a.last();
        let y = b.last();
        assert(a.to_set().contains(x));
        assert(b.contains(x));
        assert(b.to_set().contains(y));
        assert(a.contains(y));
        assert(x == y);
        let a0 = a.drop_last();
        let b0 = b.drop_last();
        assert forall|e: SubscriptionId| a0.to_set().contains(e) == b0.to_set().contains(e) by {
            if a0.contains(e) {
                let i = choose|i: int| 0 <= i < a0.len() && a0[i] == e;
                assert(a[i] == e);
                assert(a.to_set().contains(e));
                assert(b.contains(e));
                let k = choose|k: int| 0 <= k < b.len() && b[k] == e;
                assert(k < b.len() - 1);
                assert(b0[k] == e);
            }
            if b0.contains(e) {
                let i = choose|i: int| 0 <= i < b0.len() && b0[i] == e;
                assert(b[i] == e);
                assert(b.to_set().contains(e));
                assert(a.contains(e));
                let k = choose|k: int| 0 <= k < a.len() && a[k] == e;
                assert(k < a.len() - 1);
                assert(a0[k] == e);
            }
        }
        assert(a0.to_set() =~= b0.to_set());
        lemma_one_listing(a0, b0);
        assert(a =~= a0.push(x));
        assert(b =~= b0.push(y));
    }
}

/// Putting a new identifier where the smaller ones end keeps a list
/// ascending, and adds that identifier and no other.
pub proof fn lemma_insert_keeps_order(before: Seq<SubscriptionId>, p: int, k: SubscriptionId)
    requires
        ascending(before),
        !before.contains(k),
        0 <= p <= before.len(),
        forall|q: int| 0 <= q < p ==> before[q] < k,
        p < before.len() ==> !(before[p] < k),
    ensures
        ascending(before.insert(p, k)),
        forall|e: SubscriptionId|
            before.insert(p, k).contains(e) <==> before.contains(e) || e == k,
{
    let after = before.insert(p, k);
    assert forall|a: int, b: int| 0 <= a < b < after.len() implies after[a] < after[b] by {
        if b < p {
            assert(after[a] == before[a] && after[b] == before[b]);
        } else if b == p {
            assert(after[a] == before[a]);
        } else if a < p {
            assert(after[a] == before[a] && after[b] == before[b - 1]);
            assert(before.contains(before[b - 1]));
        } else if a == p {
            assert(after[b] == before[b - 1]);
            assert(before.contains(before[b - 1]));
            assert(before.contains(before[p]));
        } else {
            assert(after[a] == before[a - 1] && after[b] == before[b - 1]);
        }
    }
    assert forall|e: SubscriptionId| after.contains(e) <==> before.contains(e) || e == k by {
        if after.contains(e) {
            let a = choose|a: int| 0 <= a < after.len() && after[a] == e;
            if a < p {
                assert(before[a] == e);
            } else if a > p {
                assert(before[a - 1] == e);
            }
        }
        if before.contains(e) {
            let a0 = choose|a0: int| 0 <= a0 < before.len() && before[a0] == e;
            if a0 < p {
                assert(after[a0] == before[a0]);
            } else {
                assert(after[a0 + 1] == before[a0]);
            }
        }
        if e == k {
            assert(after[p] == k);
        }
    }
}

/// Where in an ascending list the identifiers smaller than `k` end.
pub proof fn lemma_place_exists(ids: Seq<SubscriptionId>, k: SubscriptionId) -> (p: int)
    requires
        ascending(ids),
    ensures
        0 <= p <= ids.len(),
        forall|q: int| 0 <= q < p ==> ids[q] < k,
        p < ids.len() ==> !(ids[p] < k),
    decreases ids.len(),
{
    if ids.len() == 0 {
        0
    } else if ids.last() < k {
        assert forall|q: int| 0 <= q < ids.len() implies ids[q] < k by {
            if q < ids.len() - 1 {
                assert(ids[q] < ids[ids.len() - 1]);
            }
        }
        ids.len() as int
    } else {
        let shorter = ids.drop_last();
        assert forall|i: int, j: int| 0 <= i < j < shorter.len() implies shorter[i]
            < shorter[j] by {
            assert(shorter[i] == ids[i] && shorter[j] == ids[j]);
        }
        let p = lemma_place_exists(shorter, k);
        assert forall|q: int| 0 <= q < p implies ids[q] < k by {
            assert(shorter[q] == ids[q]);
        }
        if p < shorter.len() {
            assert(shorter[p] == ids[p]);
        }
        p
    }
}

/// Every finite set of identifiers has its ascending list, and only one:
/// the list names each identifier of the set once and no other.
pub proof fn lemma_listing_exists(dom: Set<SubscriptionId>)
    requires
        dom.finite(),
    ensures
        lists(in_order(dom), dom),
        in_order(dom).no_duplicates(),
        in_order(dom).len() == dom.len(),
        forall|id: SubscriptionId| in_order(dom).contains(id) <==> dom.contains(id),
    decreases dom.len(),
{
    if dom.len() == 0 {
        let none = Seq::<SubscriptionId>::empty();
        assert(dom =~= Set::<SubscriptionId>::empty());
        assert(none.to_set() =~= dom);
        assert(lists(none, dom));
    } else {
        let x = dom.choose();
        let rest = dom.remove(x);
        lemma_listing_exists(rest);
        let ids = in_order(rest);
        let p = lemma_place_exists(ids, x);
        assert(!ids.contains(x));
        lemma_insert_keeps_order(ids, p, x);
        let all = ids.insert(p, x);
        assert(all.to_set() =~= dom) by {
            assert forall|e: SubscriptionId| all.to_set().contains(e) <==> dom.contains(e) by {
                assert(all.contains(e) <==> ids.contains(e) || e == x);
                assert(ids.contains(e) <==> rest.contains(e));
            }
        }
        assert(lists(all, dom));
    }
    let listed = in_order(dom);
    assert(lists(listed, dom));
    assert forall|i: int, j: int| 0 <= i < listed.len() && 0 <= j < listed.len() && i
        != j implies listed[i] != listed[j] by {
        if i < j {
            assert(listed[i] < listed[j]);
        } else {
            assert(listed[j] < listed[i]);
        }
    }
    listed.unique_seq_to_set();
    assert forall|id: SubscriptionId| listed.contains(id) <==> dom.contains(id) by {
        assert(listed.to_set().contains(id) <==> listed.contains(id));
    }
}

/// A clear hands out the identifier of every live subscription, and hands
/// out none twice.
pub proof fn lemma_clear_releases_each_once(entries: Map<SubscriptionId, Seq<char>>)
    requires
        entries.dom().finite(),
    ensures
        ids_of(entries).len() == entries.dom().len(),
        ids_of(entries).no_duplicates(),
        forall|id: SubscriptionId| holds(entries, id) <==> ids_of(entries).contains(id),
{
    lemma_listing_exists(entries.dom());
}

/// Draws a fresh candidate identifier from `uuid::Uuid::new_v4`, taken as a
/// 128-bit number by `Uuid::as_u128`. Nothing is claimed of the random bits;
/// the version and variant marks are those that `new_v4` sets.
#[verifier::external_body]
fn random_identifier() -> (id: SubscriptionId)
    ensures
        is_random_uuid(id),
{
    uuid::Uuid::new_v4().as_u128()
}

/// The length in milliseconds of a timeout given in seconds, where it is a
/// valid one.
pub fn timeout_millis(seconds: i32) -> (millis: Option<u32>)
    ensures
        millis is Some <==> valid_timeout(seconds),
        millis matches Some(ms) ==> ms == seconds * 1000,
{
    if 0 <= seconds && seconds <= MAX_TIMEOUT_SECONDS {
        let ms: i32 = seconds * 1000;
        Some(ms as u32)
    } else {
        None
    }
}

impl NotificationRegistry {
    /// The entries: the callback name under each live identifier.
    pub closed spec fn entries(&self) -> Map<SubscriptionId, Seq<char>> {
        Map::new(
            |id: SubscriptionId| self.entries@.contains_key(id),
            |id: SubscriptionId| self.entries@[id]@,
        )
    }

    /// The registry's invariant: its entries are finite in number.
    pub open spec fn wf(&self) -> bool {
        self.entries().dom().finite()
    }

    /// Whether `id` names a live subscription.
    pub open spec fn contains(&self, id: SubscriptionId) -> bool {
        holds(self.entries(), id)
    }

    /// The callback that `id` notifies.
    pub open spec fn callback_of(&self, id: SubscriptionId) -> Option<Seq<char>> {
        callback_in(self.entries(), id)
    }

    /// The identifiers of the live subscriptions, in ascending order.
    pub open spec fn ids(&self) -> Seq<SubscriptionId> {
        ids_of(self.entries())
    }

    proof fn lemma_same_identifiers(&self)
        ensures
            self.entries().dom() == self.entries@.dom(),
            self.wf(),
    {
        assert(self.entries().dom() =~= self.entries@.dom());
    }

    /// An empty registry.
    pub fn new() -> (registry: Self)
        ensures
            registry.wf(),
            registry.entries() == Map::<SubscriptionId, Seq<char>>::empty(),
    {
        let registry = NotificationRegistry { entries: HashMap::new() };
        proof {
            registry.lemma_same_identifiers();
            assert(registry.entries() =~= Map::<SubscriptionId, Seq<char>>::empty());
        }
        registry
    }

    /// The number of live subscriptions.
    pub fn len(&self) -> (n: usize)
        ensures
            n == self.entries().dom().len(),
    {
        proof {
            self.lemma_same_identifiers();
        }
        self.entries.len()
    }

    /// Whether there is no live subscription.
    pub fn is_empty(&self) -> (empty: bool)
        ensures
            empty == (self.entries().dom().len() == 0),
    {
        self.len() == 0
    }

    /// Tells whether `id` names a live subscription.
    pub fn has(&self, id: SubscriptionId) -> (found: bool)
        ensures
            found == self.contains(id),
    {
        self.entries.contains_key(&id)
    }

    /// Registers a subscription under the identifier `id`, which the caller
    /// drew, and says which native timer is to be created for it.
    ///
    /// An invalid timeout is refused first, then an identifier that is in
    /// use; a refusal leaves the registry as it was.
    pub fn register_with_id(
        &mut self,
        id: SubscriptionId,
        callback_name: String,
        timeout_seconds: i32,
    ) -> (r: Result<TimerRequest, RegisterError>)
        requires
            old(self).wf(),
        ensures
            final(self).wf(),
            r is Ok <==> valid_timeout(timeout_seconds) && !old(self).contains(id),
            !valid_timeout(timeout_seconds) <==> r == Err::<TimerRequest, RegisterError>(
                RegisterError::InvalidTimeout,
            ),
            valid_timeout(timeout_seconds) && old(self).contains(id) <==> r == Err::<
                TimerRequest,
                RegisterError,
            >(RegisterError::IdentifierInUse),
            r matches Ok(request) ==> request.id == id && request.millis == timeout_seconds * 1000
                && final(self).entries() == old(self).entries().insert(id, callback_name@),
            r is Err ==> final(self).entries() == old(self).entries(),
            valid_timeout(timeout_seconds) ==> final(self).entries() == after_register(
                old(self).entries(),
                id,
                callback_name@,
            ),
    {
        let millis = match timeout_millis(timeout_seconds) {
            Some(ms) => ms,
            None => {
                return Err(RegisterError::InvalidTimeout);
            },
        };
        if self.entries.contains_key(&id) {
            return Err(RegisterError::IdentifierInUse);
        }
        let ghost before = self.entries();
        self.entries.insert(id, callback_name);
        proof {
            self.lemma_same_identifiers();
            assert(self.entries() =~= before.insert(id, callback_name@));
        }
        Ok(TimerRequest { id, millis })
    }

    /// Registers a subscription under a freshly drawn identifier and says
    /// which native timer is to be created for it.
    ///
    /// The identifier is random. Should the one that was drawn name a live
    /// subscription already, nothing is registered; that cannot happen
    /// while no live identifier carries the marks of a random UUID, as in
    /// an empty registry.
    pub fn register(&mut self, callback_name: String, timeout_seconds: i32) -> (r: Result<
        TimerRequest,
        RegisterError,
    >)
        requires
            old(self).wf(),
        ensures
            final(self).wf(),
            !valid_timeout(timeout_seconds) <==> r == Err::<TimerRequest, RegisterError>(
                RegisterError::InvalidTimeout,
            ),
            valid_timeout(timeout_seconds) && r is Err ==> r == Err::<TimerRequest, RegisterError>(
                RegisterError::IdentifierInUse,
            ),
            valid_timeout(timeout_seconds) && r is Err ==> exists|drawn: SubscriptionId| #[trigger]
                is_random_uuid(drawn) && old(self).contains(drawn),
            r matches Ok(request) ==> !old(self).contains(request.id) && is_random_uuid(request.id)
                && request.millis == timeout_seconds * 1000 && final(self).entries() == old(
                self,
            ).entries().insert(request.id, callback_name@),
            r is Err ==> final(self).entries() == old(self).entries(),
    {
        let id = random_identifier();
        self.register_with_id(id, callback_name, timeout_seconds)
    }

    /// Looks up whom an idle transition of the subscription `id` notifies:
    /// its callback, with the phase's word as the argument. An unknown
    /// identifier gives nothing.
    pub fn deliver(&self, id: SubscriptionId, phase: Phase) -> (d: Option<Delivery>)
        ensures
            d is Some <==> self.contains(id),
            d matches Some(delivery) ==> Some(delivery.callback@) == self.callback_of(id)
                && delivery.argument@ == phase_text(phase),
    {
        match self.entries.get(&id) {
            Some(callback) => Some(
                Delivery { callback: callback.clone(), argument: phase.argument() },
            ),
            None => None,
        }
    }

    /// The live identifiers, in the order in which the map yields them.
    fn identifiers(&self) -> (found: Vec<SubscriptionId>)
        ensures
            found@.no_duplicates(),
            found@.to_set() == self.entries().dom(),
    {
        let mut found: Vec<SubscriptionId> = Vec::new();
        let ghost keys: Seq<SubscriptionId> = self.entries.keys().remaining().unref();
        for key in it: self.entries.keys()
            invariant
                it.seq().unref() == keys,
                found@ == keys.subrange(0, it.index() as int),
        {
            found.push(*key);
        }
        proof {
            assert(found@ =~= keys);
            self.lemma_same_identifiers();
        }
        found
    }

    /// Empties the registry and hands out the identifiers whose native
    /// timers are to be destroyed: every one that was live, once, in
    /// ascending order.
    pub fn clear_all(&mut self) -> (released: Vec<SubscriptionId>)
        requires
            old(self).wf(),
        ensures
            final(self).wf(),
            final(self).entries() == Map::<SubscriptionId, Seq<char>>::empty(),
            released@ == old(self).ids(),
            released@.no_duplicates(),
            released@.to_set() == old(self).entries().dom(),
    {
        let found = self.identifiers();
        let released = in_ascending_order(&found);
        proof {
            let dom = self.entries().dom();
            assert(lists(released@, dom));
            lemma_listing_exists(dom);
            lemma_one_listing(released@, in_order(dom));
        }
        self.entries.clear();
        proof {
            self.lemma_same_identifiers();
            assert(self.entries() =~= Map::<SubscriptionId, Seq<char>>::empty());
        }
        released
    }
}

/// Puts identifiers, no two of them equal, in ascending order.
fn in_ascending_order(ids: &Vec<SubscriptionId>) -> (out: Vec<SubscriptionId>)
    requires
        ids@.no_duplicates(),
    ensures
        ascending(out@),
        out@.to_set() == ids@.to_set(),
{
    let mut out: Vec<SubscriptionId> = Vec::new();
    let mut i: usize = 0;
    while i < ids.len()
        invariant
            i <= ids.len(),
            ids@.no_duplicates(),
            ascending(out@),
            forall|e: SubscriptionId| out@.contains(e) <==> ids@.subrange(0, i as int).contains(e),
        decreases ids.len() - i,
    {
        let k = ids[i];
        let ghost seen = ids@.subrange(0, i as int);
        let ghost before = out@;
        proof {
            if before.contains(k) {
                let j = choose|j: int| 0 <= j < seen.len() && seen[j] == k;
                assert(ids@[j] == k);
            }
        }
        let mut p: usize = 0;
        while p < out.len() && out[p] < k
            invariant
                p <= out.len(),
                forall|q: int| 0 <= q < p ==> out@[q] < k,
            decreases out.len() - p,
        {
            p = p + 1;
        }
        out.insert(p, k);
        proof {
            lemma_insert_keeps_order(before, p as int, k);
            assert(out@ == before.insert(p as int, k));
            let next = ids@.subrange(0, i + 1);
            assert forall|e: SubscriptionId| out@.contains(e) <==> next.contains(e) by {
                assert(out@.contains(e) <==> before.contains(e) || e == k);
                assert(before.contains(e) <==> seen.contains(e));
                if next.contains(e) {
                    let j = choose|j: int| 0 <= j < next.len() && next[j] == e;
                    if j < i {
                        assert(seen[j] == e);
                        assert(seen.contains(e));
                    }
                }
                if seen.contains(e) {
                    let j = choose|j: int| 0 <= j < seen.len() && seen[j] == e;
                    assert(next[j] == e);
                }
                if e == k {
                    assert(next[i as int] == k);
                }
            }
        }
        i = i + 1;
    }
    proof {
        assert(ids@.subrange(0, i as int) =~= ids@);
        assert(out@.to_set() =~= ids@.to_set());
    }
    out
}

} // verus!
