use crate::codec::bytes_equal;
use crate::consensus_state::{ConsensusState, ConsensusStateView};
use crate::height::Height;
use vstd::prelude::*;

verus! {

/// The value stored under `key`: the latest write to it, if any.
pub open spec fn store_lookup(entries: Seq<(Seq<u8>, Seq<u8>)>, key: Seq<u8>) -> Option<Seq<u8>>
    decreases entries.len(),
{
    if entries.len() == 0 {
        None
    } else if entries.last().0 == key {
        Some(entries.last().1)
    } else {
        store_lookup(entries.drop_last(), key)
    }
}

/// The consensus state stored at `height`: the latest one written there, if any.
pub open spec fn consensus_lookup(entries: Seq<(Height, ConsensusStateView)>, height: Height) -> Option<
    ConsensusStateView,
>
    decreases entries.len(),
{
    if entries.len() == 0 {
        None
    } else if entries.last().0 == height {
        Some(entries.last().1)
    } else {
        consensus_lookup(entries.drop_last(), height)
    }
}

/// The host chain as the client sees it: its own height, block time and state
/// commitment, its key-value store, and the consensus states kept for the
/// client.
pub struct HostContext {
    pub host_height: Height,
    pub host_timestamp: u64,
    pub commitment_root: Vec<u8>,
    pub store: Vec<(Vec<u8>, Vec<u8>)>,
    pub consensus_states: Vec<(Height, ConsensusState)>,
}

impl HostContext {
    /// The writes to the key-value store, oldest first.
    pub open spec fn entries(&self) -> Seq<(Seq<u8>, Seq<u8>)> {
        self.store@.map_values(|e: (Vec<u8>, Vec<u8>)| (e.0@, e.1@))
    }

    /// The consensus states written, oldest first.
    pub open spec fn consensus_entries(&self) -> Seq<(Height, ConsensusStateView)> {
        self.consensus_states@.map_values(|e: (Height, ConsensusState)| (e.0, e.1@))
    }

    /// A host at `host_height` with nothing stored yet.
    pub fn new(host_height: Height, host_timestamp: u64, commitment_root: Vec<u8>) -> (r: HostContext)
        ensures
            r.host_height == host_height,
            r.host_timestamp == host_timestamp,
            r.commitment_root@ == commitment_root@,
            r.entries() == Seq::<(Seq<u8>, Seq<u8>)>::empty(),
            r.consensus_entries() == Seq::<(Height, ConsensusStateView)>::empty(),
    {
        let r = HostContext {
            host_height,
            host_timestamp,
            commitment_root,
            store: Vec::new(),
            consensus_states: Vec::new(),
        };
        assert(r.entries() =~= Seq::<(Seq<u8>, Seq<u8>)>::empty());
        assert(r.consensus_entries() =~= Seq::<(Height, ConsensusStateView)>::empty());
        r
    }

    /// Writes `value` under `key`.
    pub fn set(&mut self, key: Vec<u8>, value: Vec<u8>)
        ensures
            final(self).entries() == old(self).entries().push((key@, value@)),
            final(self).consensus_entries() == old(self).consensus_entries(),
            final(self).host_height == old(self).host_height,
            final(self).host_timestamp == old(self).host_timestamp,
            final(self).commitment_root@ == old(self).commitment_root@,
    {
        self.store.push((key, value));
        assert(self.entries() =~= old(self).entries().push((key@, value@)));
        assert(self.consensus_entries() =~= old(self).consensus_entries());
    }

    /// Reads the value stored under `key`.
    pub fn get(&self, key: &Vec<u8>) -> (r: Option<Vec<u8>>)
        ensures
            r matches Some(v) ==> store_lookup(self.entries(), key@) == Some(v@),
            r is None ==> store_lookup(self.entries(), key@) is None,
    {
        let ghost all = self.entries();
        let mut i: usize = self.store.len();
        assert(all.subrange(0, i as int) =~= all);
        while i > 0
            invariant
                i <= self.store@.len(),
                all == self.entries(),
                store_lookup(all, key@) == store_lookup(all.subrange(0, i as int), key@),
            decreases i,
        {
            let ghost prefix = all.subrange(0, i as int);
            if bytes_equal(&self.store[i - 1].0, key) {
                let v = self.store[i - 1].1.clone();
                return Some(v);
            }
            assert(prefix.drop_last() =~= all.subrange(0, i - 1));
            i = i - 1;
        }
        None
    }

    /// Keeps `state` as the consensus state at `height`.
    pub fn store_consensus_state(&mut self, height: Height, state: ConsensusState)
        ensures
            final(self).consensus_entries() == old(self).consensus_entries().push((height, state@)),
            final(self).entries() == old(self).entries(),
            final(self).host_height == old(self).host_height,
            final(self).host_timestamp == old(self).host_timestamp,
            final(self).commitment_root@ == old(self).commitment_root@,
    {
        let ghost sv = state@;
        self.consensus_states.push((height, state));
        assert(self.consensus_entries() =~= old(self).consensus_entries().push((height, sv)));
        assert(self.entries() =~= old(self).entries());
    }

    /// Reads the consensus state kept at `height`.
    pub fn consensus_state(&self, height: Height) -> (r: Option<ConsensusState>)
        ensures
            r matches Some(c) ==> consensus_lookup(self.consensus_entries(), height) == Some(c@),
            r is None ==> consensus_lookup(self.consensus_entries(), height) is None,
    {
        let ghost all = self.consensus_entries();
        let mut i: usize = self.consensus_states.len();
        assert(all.subrange(0, i as int) =~= all);
        while i > 0
            invariant
                i <= self.consensus_states@.len(),
                all == self.consensus_entries(),
                consensus_lookup(all, height) == consensus_lookup(all.subrange(0, i as int), height),
            decreases i,
        {
            let ghost prefix = all.subrange(0, i as int);
            if self.consensus_states[i - 1].0 == height {
                let c = ConsensusState {
                    root: self.consensus_states[i - 1].1.root.clone(),
                    timestamp: self.consensus_states[i - 1].1.timestamp,
                };
                return Some(c);
            }
            assert(prefix.drop_last() =~= all.subrange(0, i - 1));
            i = i - 1;
        }
        None
    }
}

} // verus!
