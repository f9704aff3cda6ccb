use crate::codec::{read_u64, write_u64};
use crate::envelope::Envelope;
use crate::error::Error;
use vstd::bytes::*;
use vstd::prelude::*;

verus! {

/// Type identifier of a consensus state in an envelope.
pub const CONSENSUS_STATE_TYPE_URL: &'static str = "/ibc.lightclients.localhost.v1.ConsensusState";

/// A snapshot of the host chain at one height: its state commitment and its
/// block time, in nanoseconds.
#[derive(Debug, Clone, PartialEq, Eq)]
pub struct ConsensusState {
    pub root: Vec<u8>,
    pub timestamp: u64,
}

/// The mathematical content of a consensus state.
pub struct ConsensusStateView {
    pub root: Seq<u8>,
    pub timestamp: u64,
}

impl View for ConsensusState {
    type V = ConsensusStateView;

    open spec fn view(&self) -> ConsensusStateView {
        ConsensusStateView { root: self.root@, timestamp: self.timestamp }
    }
}

/// The bytes of a consensus state: the little-endian timestamp, then the root.
pub open spec fn consensus_state_bytes(c: ConsensusStateView) -> Seq<u8> {
    spec_u64_to_le_bytes(c.timestamp) + c.root
}

/// The consensus state that `b` encodes, if any: at least the eight bytes of
/// the timestamp.
pub open spec fn consensus_state_from_bytes(b: Seq<u8>) -> Option<ConsensusStateView> {
    if b.len() < 8 {
        None
    } else {
        Some(
            ConsensusStateView {
                root: b.subrange(8, b.len() as int),
                timestamp: spec_u64_from_le_bytes(b.subrange(0, 8)),
            },
        )
    }
}

/// What decoding an envelope as a consensus state gives.
pub open spec fn consensus_state_from_envelope(type_url: Seq<char>, value: Seq<u8>) -> Result<
    ConsensusStateView,
    Error,
> {
    if type_url != CONSENSUS_STATE_TYPE_URL@ {
        Err(Error::UnrecognizedType)
    } else {
        match consensus_state_from_bytes(value) {
            Some(c) => Ok(c),
            None => Err(Error::MalformedPayload),
        }
    }
}

impl ConsensusState {
    /// A consensus state is usable once it commits to a non-empty root.
    pub open spec fn valid(self) -> bool {
        self.root@.len() > 0
    }

    pub fn root(&self) -> (r: &Vec<u8>)
        ensures
            r@ == self.root@,
    {
        &self.root
    }

    pub fn timestamp(&self) -> (r: u64)
        ensures
            r == self.timestamp,
    {
        self.timestamp
    }

    /// Encodes the consensus state's fields.
    pub fn encode_vec(&self) -> (r: Vec<u8>)
        ensures
            r@ == consensus_state_bytes(self@),
    {
        let mut out: Vec<u8> = Vec::new();
        write_u64(&mut out, self.timestamp);
        let mut i: usize = 0;
        while i < self.root.len()
            invariant
                i <= self.root@.len(),
                out@ == spec_u64_to_le_bytes(self.timestamp) + self.root@.subrange(0, i as int),
            decreases self.root@.len() - i,
        {
            out.push(self.root[i]);
            i = i + 1;
            assert(out@ =~= spec_u64_to_le_bytes(self.timestamp) + self.root@.subrange(
                0,
                i as int,
            ));
        }
        assert(self.root@.subrange(0, i as int) =~= self.root@);
        out
    }

    /// Decodes a consensus state's fields; fails on fewer than eight bytes.
    pub fn decode_vec(b: &Vec<u8>) -> (r: Option<ConsensusState>)
        ensures
            r matches Some(c) ==> consensus_state_from_bytes(b@) == Some(c@),
            r is None ==> consensus_state_from_bytes(b@) is None,
    {
        if b.len() < 8 {
            return None;
        }
        let timestamp = read_u64(b, 0);
        let mut root: Vec<u8> = Vec::new();
        let mut i: usize = 8;
        while i < b.len()
            invariant
                8 <= i <= b@.len(),
                root@ == b@.subrange(8, i as int),
            decreases b@.len() - i,
        {
            root.push(b[i]);
            i = i + 1;
            assert(root@ =~= b@.subrange(8, i as int));
        }
        Some(ConsensusState { root, timestamp })
    }

    /// Wraps the consensus state in an envelope under its type identifier.
    pub fn to_envelope(&self) -> (r: Envelope)
        ensures
            r.type_url@ == CONSENSUS_STATE_TYPE_URL@,
            r.value@ == consensus_state_bytes(self@),
    {
        Envelope { type_url: CONSENSUS_STATE_TYPE_URL.to_owned(), value: self.encode_vec() }
    }

    /// Reads a consensus state out of an envelope.
    pub fn from_envelope(env: &Envelope) -> (r: Result<ConsensusState, Error>)
        ensures
            r matches Ok(c) ==> consensus_state_from_envelope(env.type_url@, env.value@) == Ok::<
                ConsensusStateView,
                Error,
            >(c@),
            r matches Err(e) ==> consensus_state_from_envelope(env.type_url@, env.value@) == Err::<
                ConsensusStateView,
                Error,
            >(e),
    {
        let url = CONSENSUS_STATE_TYPE_URL.to_owned();
        if env.type_url != url {
            return Err(Error::UnrecognizedType);
        }
        match ConsensusState::decode_vec(&env.value) {
            Some(c) => Ok(c),
            None => Err(Error::MalformedPayload),
        }
    }
}

/// Decoding the bytes of a consensus state gives the same state back.
pub proof fn lemma_consensus_state_bytes_round_trip(c: ConsensusStateView)
    ensures
        consensus_state_from_bytes(consensus_state_bytes(c)) == Some(c),
{
    lemma_auto_spec_u64_to_from_le_bytes();
    let s = consensus_state_bytes(c);
    assert(s.subrange(0, 8) =~= spec_u64_to_le_bytes(c.timestamp));
    assert(s.subrange(8, s.len() as int) =~= c.root);
}

} // verus!
