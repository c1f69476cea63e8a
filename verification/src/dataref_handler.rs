use vstd::prelude::*;

use std::sync::Arc;

use vstd::bytes::spec_u32_from_le_bytes;
use vstd::bytes::u32_from_le_bytes;
use vstd::slice::slice_subrange;
use vstd::string::StrSliceExecFns;
use vstd::string::StringSliceAdditionalSpecFns;

use crate::consts::SUBSCRIBE_NAME_CAPACITY;
use crate::dataref::spec_has_rref_prefix;
use crate::dataref::spec_subscription_message;
use crate::dataref::DataRef;
use crate::dataref_type::DataRefType;
use crate::dataref_type::DataRefValueType;
use crate::errors::XpError;
use crate::shared_map::dataref_map;
use crate::shared_map::dataref_map_get;
use crate::shared_map::dataref_map_insert;
use crate::shared_map::dataref_map_remove;
use crate::shared_map::dataref_map_update;
use crate::shared_map::name_map;
use crate::shared_map::name_map_get;
use crate::shared_map::name_map_insert;
use crate::shared_map::name_map_keys;
use crate::shared_map::name_map_remove;
use crate::shared_map::new_dataref_map;
use crate::shared_map::new_name_map;
use crate::utils::spec_i32_from_bits;
use crate::utils::i32_from_bits;

verus! {

/// The outcome of classifying or processing one inbound datagram.
pub enum MessageStatus<T> {
    /// The datagram decoded; the payload is what the operation yielded.
    Decoded(T),
    /// The four-byte tag is not `RREF`: an unrelated packet class.
    WrongPrefix,
    /// The length after the five-byte header is not a whole number of
    /// eight-byte pairs.
    InvalidLength,
    /// The datagram was understood but its content could not be used.
    InvalidData,
}

/// How many index/value pairs an inbound update datagram carries.
pub open spec fn spec_update_count(data: Seq<u8>) -> int {
    (data.len() - 5) / 8
}

/// Whether an inbound buffer is a well-formed update datagram: the `RREF`
/// tag followed by a pad byte and a whole number of eight-byte pairs.
pub open spec fn spec_is_update_frame(data: Seq<u8>) -> bool {
    &&& spec_has_rref_prefix(data)
    &&& data.len() >= 5
    &&& (data.len() - 5) % 8 == 0
}

/// The `i`-th index/value pair of an update datagram, in wire order: a
/// little-endian signed index, then the raw bits of a 32-bit float.
pub open spec fn spec_update_pair(data: Seq<u8>, i: int) -> (i32, u32)
    recommends
        0 <= i < spec_update_count(data),
{
    (
        spec_i32_from_bits(spec_u32_from_le_bytes(data.subrange(5 + 8 * i, 9 + 8 * i))),
        spec_u32_from_le_bytes(data.subrange(9 + 8 * i, 13 + 8 * i)),
    )
}

/// All index/value pairs of an update datagram, in wire order.
pub open spec fn spec_update_pairs(data: Seq<u8>) -> Seq<(i32, u32)> {
    Seq::new(spec_update_count(data) as nat, |i: int| spec_update_pair(data, i))
}

/// The table after the pairs are applied in order: a pair updates the
/// subscription registered under its index and is dropped if the index is
/// unregistered; when one datagram names an index twice, the later pair
/// wins.
pub open spec fn spec_apply_updates(m: Map<i32, DataRef>, pairs: Seq<(i32, u32)>) -> Map<
    i32,
    DataRef,
>
    decreases pairs.len(),
{
    if pairs.len() == 0 {
        m
    } else {
        let applied = spec_apply_updates(m, pairs.drop_last());
        let pair = pairs.last();
        if applied.contains_key(pair.0) {
            applied.insert(pair.0, applied[pair.0].spec_with_value(pair.1))
        } else {
            applied
        }
    }
}

/// Applying updates never adds or removes a subscription, and touches no
/// subscription whose index is absent from the pairs.
pub proof fn lemma_apply_updates_dom(m: Map<i32, DataRef>, pairs: Seq<(i32, u32)>)
    ensures
        spec_apply_updates(m, pairs).dom() == m.dom(),
        forall|i: i32|
            m.contains_key(i) && (forall|j: int| 0 <= j < pairs.len() ==> pairs[j].0 != i)
                ==> spec_apply_updates(m, pairs)[i] == m[i],
    decreases pairs.len(),
{
    if pairs.len() == 0 {
    } else {
        lemma_apply_updates_dom(m, pairs.drop_last());
        assert forall|i: i32|
            m.contains_key(i) && (forall|j: int| 0 <= j < pairs.len() ==> pairs[j].0 != i)
                implies spec_apply_updates(m, pairs)[i] == m[i] by {
            assert(forall|j: int| 0 <= j < pairs.drop_last().len() ==> pairs.drop_last()[j].0 != i);
            assert(pairs.last().0 != i);
        }
        assert(spec_apply_updates(m, pairs).dom() =~= m.dom());
    }
}

/// Unsubscribing is idempotent in its outcome: a successful unsubscribe
/// removes the name from the registry, so by `unsubscribe`'s contract —
/// which returns `NotFound` exactly when the name is absent — a second
/// unsubscribe of the same name reports `NotFound`.
pub proof fn lemma_unsubscribe_idempotent(
    before: DataRefHandler,
    after: DataRefHandler,
    name: Seq<u8>,
)
    requires
        before.wf(),
        before.spec_names().contains_key(name),
        after.spec_names() == before.spec_names().remove(name),
    ensures
        !after.spec_names().contains_key(name),
{
}

/// Update isolation: applying any batch of inbound pairs neither adds nor
/// removes subscriptions, and a subscription whose index appears in no
/// pair keeps its value exactly — a read never observes a value that was
/// delivered for a different dataref.
pub proof fn lemma_update_isolation(h: DataRefHandler, pairs: Seq<(i32, u32)>, name: Seq<u8>)
    requires
        h.wf(),
        h.spec_names().contains_key(name),
        forall|j: int| 0 <= j < pairs.len() ==> (#[trigger] pairs[j]).0 != h.spec_names()[name],
    ensures
        spec_apply_updates(h.spec_subs(), pairs).contains_key(h.spec_names()[name]),
        spec_apply_updates(h.spec_subs(), pairs)[h.spec_names()[name]] == h.spec_subs()[h.spec_names()[name]],
{
    lemma_apply_updates_dom(h.spec_subs(), pairs);
}

/// A delivered update is observed: applying one pair aimed at a
/// subscribed name's index leaves that subscription registered under the
/// same name, now carrying the delivered raw bits.
pub proof fn lemma_update_observed(h: DataRefHandler, name: Seq<u8>, bits: u32)
    requires
        h.wf(),
        h.spec_names().contains_key(name),
    ensures
        ({
            let index = h.spec_names()[name];
            let updated = spec_apply_updates(h.spec_subs(), seq![(index, bits)]);
            &&& updated.contains_key(index)
            &&& updated[index] == h.spec_subs()[index].spec_with_value(bits)
            &&& updated[index].name@ == name
            &&& updated[index].raw == Some(bits)
        }),
{
    let index = h.spec_names()[name];
    let pairs = seq![(index, bits)];
    assert(pairs.drop_last() =~= Seq::<(i32, u32)>::empty());
    assert(spec_apply_updates(h.spec_subs(), pairs.drop_last()) == h.spec_subs());
}

/// Within one datagram the pairs are applied in wire order, so when a
/// datagram names the same subscribed index twice, the later pair's value
/// is the one left in the table.
pub proof fn lemma_last_pair_wins(h: DataRefHandler, name: Seq<u8>, first: u32, second: u32)
    requires
        h.wf(),
        h.spec_names().contains_key(name),
    ensures
        ({
            let index = h.spec_names()[name];
            let updated = spec_apply_updates(h.spec_subs(), seq![(index, first), (index, second)]);
            &&& updated.contains_key(index)
            &&& updated[index].raw == Some(second)
        }),
{
    let index = h.spec_names()[name];
    let pairs = seq![(index, first), (index, second)];
    lemma_apply_updates_dom(h.spec_subs(), pairs.drop_last());
    assert(pairs.drop_last().drop_last() =~= Seq::<(i32, u32)>::empty());
    assert(spec_apply_updates(h.spec_subs(), pairs.drop_last().drop_last()) == h.spec_subs());
}

/// Indices are never reused: the index that the next subscribe will
/// allocate is registered to no subscription, so a stale inbound update
/// that still names a freed index is dropped rather than applied to an
/// unrelated subscription.
pub proof fn lemma_fresh_index_unregistered(h: DataRefHandler)
    requires
        h.wf(),
    ensures
        !h.spec_subs().contains_key(h.index_counter),
{
}

/// The concurrent registry of active subscriptions: a monotonically
/// increasing index counter, the shared index-to-subscription table that
/// the background receive loop updates in place, and the name-to-index
/// table that resolves reads and unsubscriptions.
pub struct DataRefHandler {
    pub index_counter: i32,
    pub id_datarefs: Arc<dashmap::DashMap<i32, DataRef>>,
    pub name_id_map: dashmap::DashMap<Vec<u8>, i32>,
}

impl DataRefHandler {
    /// The two tables describe the same set of subscriptions: every
    /// registered subscription carries its own index, an index below the
    /// counter and a name within capacity, and the name-to-index mapping
    /// is exactly the inverse of index-to-name.
    pub open spec fn wf(self) -> bool {
        let dm = dataref_map(&*self.id_datarefs);
        let nm = name_map(&self.name_id_map);
        &&& 1 <= self.index_counter
        &&& forall|i: i32| #[trigger] dm.contains_key(i) ==> {
            &&& dm[i].index == i
            &&& 1 <= i < self.index_counter
            &&& dm[i].name@.len() <= SUBSCRIBE_NAME_CAPACITY
            &&& nm.contains_key(dm[i].name@)
            &&& nm[dm[i].name@] == i
        }
        &&& forall|n: Seq<u8>| #[trigger] nm.contains_key(n) ==> {
            &&& dm.contains_key(nm[n])
            &&& dm[nm[n]].name@ == n
        }
    }

    /// The set of subscriptions, as seen through the index table.
    pub open spec fn spec_subs(self) -> Map<i32, DataRef> {
        dataref_map(&*self.id_datarefs)
    }

    /// The name-to-index mapping.
    pub open spec fn spec_names(self) -> Map<Seq<u8>, i32> {
        name_map(&self.name_id_map)
    }

    pub fn new() -> (h: DataRefHandler)
        ensures
            h.wf(),
            h.index_counter == 1,
            h.spec_subs() == crate::shared_map::empty_dataref_map(),
            h.spec_names() == crate::shared_map::empty_name_map(),
    {
        DataRefHandler {
            index_counter: 1,
            id_datarefs: new_dataref_map(),
            name_id_map: new_name_map(),
        }
    }

    /// Classifies an inbound datagram without touching any state.
    ///
    /// A buffer of length `5 + 8 * n` that begins with `RREF` is accepted
    /// as carrying exactly `n` pairs; a buffer with the tag but a broken
    /// length is `InvalidLength`; anything else is `WrongPrefix`.
    pub fn should_process(data: &[u8]) -> (r: MessageStatus<usize>)
        ensures
            match r {
                MessageStatus::Decoded(n) => spec_is_update_frame(data@) && n == spec_update_count(
                    data@,
                ),
                MessageStatus::WrongPrefix => !spec_has_rref_prefix(data@),
                MessageStatus::InvalidLength => spec_has_rref_prefix(data@)
                    && !spec_is_update_frame(data@),
                MessageStatus::InvalidData => false,
            },
    {
        if data.len() < 4 || !(data[0] == 82 && data[1] == 82 && data[2] == 69 && data[3] == 70) {
            return MessageStatus::WrongPrefix;
        }
        if data.len() < 5 {
            return MessageStatus::InvalidLength;
        }
        let rest: usize = data.len() - 5;
        if rest % 8 != 0 {
            return MessageStatus::InvalidLength;
        }
        MessageStatus::Decoded(rest / 8)
    }

    /// Decodes one inbound update datagram and applies every index/value
    /// pair, in wire order, to the shared table; a pair whose index is not
    /// registered is dropped. Nothing is applied unless the whole datagram
    /// is well formed.
    pub fn process_message(map: &mut Arc<dashmap::DashMap<i32, DataRef>>, data: &[u8]) -> (r:
        MessageStatus<usize>)
        ensures
            match r {
                MessageStatus::Decoded(n) => {
                    &&& spec_is_update_frame(data@)
                    &&& n == spec_update_count(data@)
                    &&& dataref_map(&**final(map)) == spec_apply_updates(
                        dataref_map(&**old(map)),
                        spec_update_pairs(data@),
                    )
                },
                MessageStatus::WrongPrefix => !spec_has_rref_prefix(data@) && dataref_map(
                    &**final(map),
                ) == dataref_map(&**old(map)),
                MessageStatus::InvalidLength => spec_has_rref_prefix(data@) && !spec_is_update_frame(
                    data@,
                ) && dataref_map(&**final(map)) == dataref_map(&**old(map)),
                MessageStatus::InvalidData => false,
            },
    {
        let vars_count: usize = match Self::should_process(data) {
            MessageStatus::Decoded(n) => n,
            MessageStatus::WrongPrefix => { return MessageStatus::WrongPrefix },
            MessageStatus::InvalidLength => { return MessageStatus::InvalidLength },
            MessageStatus::InvalidData => { return MessageStatus::InvalidData },
        };

        let ghost m0 = dataref_map(&**map);
        let ghost pairs = spec_update_pairs(data@);
        let data_len: usize = data.len();

        let mut k: usize = 0;
        while k < vars_count
            invariant
                0 <= k <= vars_count,
                spec_is_update_frame(data@),
                data_len == data@.len(),
                8 * vars_count == data@.len() - 5,
                vars_count == spec_update_count(data@),
                pairs == spec_update_pairs(data@),
                dataref_map(&**map) == spec_apply_updates(m0, pairs.take(k as int)),
            decreases vars_count - k,
        {
            let index_offset: usize = 5 + 8 * k;
            let value_offset: usize = index_offset + 4;
            let index: i32 = i32_from_bits(
                u32_from_le_bytes(slice_subrange(data, index_offset, value_offset)),
            );
            let bits: u32 = u32_from_le_bytes(slice_subrange(data, value_offset, value_offset + 4));
            dataref_map_update(map, index, bits);
            proof {
                assert(pairs.take(k as int + 1).drop_last() =~= pairs.take(k as int));
            }
            k = k + 1;
        }
        proof {
            assert(pairs.take(vars_count as int) =~= pairs);
        }
        MessageStatus::Decoded(vars_count)
    }

    /// Registers a subscription under the next free index and encodes the
    /// subscribe-request datagram for the caller to send.
    ///
    /// A name longer than the 400-byte wire capacity is rejected before
    /// anything is encoded or registered. A name that is already
    /// subscribed is re-registered under the fresh index and its old entry
    /// is dropped, so the two tables stay consistent; indices are never
    /// reused.
    pub fn new_subscribe(&mut self, name: &str, frequency: i32, dataref_type: DataRefType) -> (r:
        Result<Vec<u8>, XpError>)
        requires
            old(self).wf(),
            old(self).index_counter < i32::MAX,
        ensures
            final(self).wf(),
            match r {
                Ok(msg) => {
                    &&& name.spec_bytes().len() <= SUBSCRIBE_NAME_CAPACITY
                    &&& msg@ == spec_subscription_message(
                        frequency,
                        old(self).index_counter,
                        name.spec_bytes(),
                    )
                    &&& final(self).index_counter == old(self).index_counter + 1
                    &&& final(self).spec_names() == old(self).spec_names().insert(
                        name.spec_bytes(),
                        old(self).index_counter,
                    )
                    &&& final(self).spec_subs().contains_key(old(self).index_counter)
                    &&& final(self).spec_subs()[old(self).index_counter] == (DataRef {
                        name: final(self).spec_subs()[old(self).index_counter].name,
                        index: old(self).index_counter,
                        freq: frequency,
                        value_type: dataref_type,
                        raw: None,
                    })
                    &&& final(self).spec_subs()[old(self).index_counter].name@
                        == name.spec_bytes()
                    &&& final(self).spec_subs() == (if old(self).spec_names().contains_key(
                        name.spec_bytes(),
                    ) {
                        old(self).spec_subs().remove(old(self).spec_names()[name.spec_bytes()])
                    } else {
                        old(self).spec_subs()
                    }).insert(
                        old(self).index_counter,
                        final(self).spec_subs()[old(self).index_counter],
                    )
                },
                Err(e) => {
                    &&& e == XpError::InvalidInput
                    &&& name.spec_bytes().len() > SUBSCRIBE_NAME_CAPACITY
                    &&& *final(self) == *old(self)
                },
            },
    {
        let name_bytes: Vec<u8> = name.as_bytes_vec();
        if name_bytes.len() > SUBSCRIBE_NAME_CAPACITY {
            return Err(XpError::InvalidInput);
        }

        // Drop any previous subscription under this name, so that the two
        // tables keep describing the same set of subscriptions.
        match name_map_get(&self.name_id_map, &name_bytes) {
            Some(previous_index) => {
                let _ = dataref_map_remove(&mut self.id_datarefs, previous_index);
            },
            None => {},
        }

        let index: i32 = self.index_counter;
        self.index_counter = index + 1;

        let dataref = DataRef::new(name, index, frequency, dataref_type);
        let msg = dataref.subscription_message();
        dataref_map_insert(&mut self.id_datarefs, index, dataref);
        name_map_insert(&mut self.name_id_map, name_bytes, index);
        Ok(msg)
    }

    /// Removes the subscription under a name given as its UTF-8 bytes and
    /// encodes the frequency-zero request that tells the simulator to stop
    /// streaming it. Local state is updated before the message is handed
    /// out, so a failed send leaves the tables consistent.
    pub fn unsubscribe_bytes(&mut self, name_bytes: &Vec<u8>) -> (r: Result<
        (Vec<u8>, Vec<u8>),
        XpError,
    >)
        requires
            old(self).wf(),
        ensures
            final(self).wf(),
            final(self).index_counter == old(self).index_counter,
            match r {
                Ok(pair) => {
                    &&& old(self).spec_names().contains_key(name_bytes@)
                    &&& pair.0@ == name_bytes@
                    &&& pair.1@ == spec_subscription_message(
                        0,
                        old(self).spec_names()[name_bytes@],
                        name_bytes@,
                    )
                    &&& final(self).spec_names() == old(self).spec_names().remove(name_bytes@)
                    &&& final(self).spec_subs() == old(self).spec_subs().remove(
                        old(self).spec_names()[name_bytes@],
                    )
                },
                Err(e) => {
                    &&& e == XpError::NotFound
                    &&& !old(self).spec_names().contains_key(name_bytes@)
                    &&& *final(self) == *old(self)
                },
            },
    {
        let index: i32 = match name_map_get(&self.name_id_map, name_bytes) {
            Some(i) => i,
            None => { return Err(XpError::NotFound) },
        };
        let removed = dataref_map_remove(&mut self.id_datarefs, index);
        let _ = name_map_remove(&mut self.name_id_map, name_bytes);
        let mut sub: DataRef = match removed {
            Some(s) => s,
            None => { return Err(XpError::NotFound) },
        };
        let msg = sub.unsubscribe_message();
        Ok((sub.name, msg))
    }

    /// Removes the subscription under a name; `NotFound` if the name was
    /// never subscribed or was already unsubscribed.
    pub fn unsubscribe(&mut self, dataref: &str) -> (r: Result<Vec<u8>, XpError>)
        requires
            old(self).wf(),
        ensures
            final(self).wf(),
            final(self).index_counter == old(self).index_counter,
            match r {
                Ok(msg) => {
                    &&& old(self).spec_names().contains_key(dataref.spec_bytes())
                    &&& msg@ == spec_subscription_message(
                        0,
                        old(self).spec_names()[dataref.spec_bytes()],
                        dataref.spec_bytes(),
                    )
                    &&& final(self).spec_names() == old(self).spec_names().remove(
                        dataref.spec_bytes(),
                    )
                    &&& final(self).spec_subs() == old(self).spec_subs().remove(
                        old(self).spec_names()[dataref.spec_bytes()],
                    )
                },
                Err(e) => {
                    &&& e == XpError::NotFound
                    &&& !old(self).spec_names().contains_key(dataref.spec_bytes())
                    &&& *final(self) == *old(self)
                },
            },
    {
        let name_bytes: Vec<u8> = dataref.as_bytes_vec();
        match self.unsubscribe_bytes(&name_bytes) {
            Ok(pair) => Ok(pair.1),
            Err(e) => Err(e),
        }
    }

    /// Removes one registered subscription, if any is left, pairing its
    /// name with the stop-streaming datagram composed for it; `None` once
    /// the registry is empty.
    ///
    /// Tearing everything down is a loop of this step in the embedding
    /// code, which sends each datagram as it goes and aborts at the first
    /// send failure: the names not yet reached then stay registered, and
    /// the caller may resume or abandon the teardown.
    pub fn unsubscribe_next(&mut self) -> (r: Option<(Vec<u8>, Vec<u8>)>)
        requires
            old(self).wf(),
        ensures
            final(self).wf(),
            final(self).index_counter == old(self).index_counter,
            match r {
                Some(pair) => {
                    &&& old(self).spec_names().contains_key(pair.0@)
                    &&& pair.1@ == spec_subscription_message(
                        0,
                        old(self).spec_names()[pair.0@],
                        pair.0@,
                    )
                    &&& final(self).spec_names() == old(self).spec_names().remove(pair.0@)
                    &&& final(self).spec_subs() == old(self).spec_subs().remove(
                        old(self).spec_names()[pair.0@],
                    )
                },
                None => {
                    &&& old(self).spec_names() == crate::shared_map::empty_name_map()
                    &&& old(self).spec_subs() == crate::shared_map::empty_dataref_map()
                    &&& *final(self) == *old(self)
                },
            },
    {
        let keys: Vec<Vec<u8>> = name_map_keys(&self.name_id_map);
        if keys.len() == 0 {
            proof {
                assert forall|n: Seq<u8>| !(#[trigger] self.spec_names().contains_key(n)) by {
                    if self.spec_names().contains_key(n) {
                        let i = choose|i: int| 0 <= i < keys@.len() && keys@[i]@ == n;
                    }
                }
                assert(self.spec_names() =~= crate::shared_map::empty_name_map());
                assert forall|i: i32| !(#[trigger] self.spec_subs().contains_key(i)) by {
                    if self.spec_subs().contains_key(i) {
                        assert(self.spec_names().contains_key(self.spec_subs()[i].name@));
                    }
                }
                assert(self.spec_subs() =~= crate::shared_map::empty_dataref_map());
            }
            return None;
        }
        match self.unsubscribe_bytes(&keys[0]) {
            Ok(pair) => Some(pair),
            Err(_absent) => None,
        }
    }

    /// The current value of a subscribed dataref: `None` if the name is
    /// not subscribed, `Some(Unknown)` if it is subscribed but no update
    /// has arrived yet, and otherwise the last received raw bits tagged
    /// with the declared type.
    pub fn get_dataref(&self, dataref: &str) -> (r: Option<DataRefValueType>)
        requires
            self.wf(),
        ensures
            match r {
                Some(v) => self.spec_names().contains_key(dataref.spec_bytes()) && v
                    == self.spec_subs()[self.spec_names()[dataref.spec_bytes()]].spec_get(),
                None => !self.spec_names().contains_key(dataref.spec_bytes()),
            },
    {
        let name_bytes: Vec<u8> = dataref.as_bytes_vec();
        let index: i32 = match name_map_get(&self.name_id_map, &name_bytes) {
            Some(i) => i,
            None => { return None },
        };
        match dataref_map_get(&self.id_datarefs, index) {
            Some(sub) => Some(sub.get()),
            None => None,
        }
    }
}

} // verus!
