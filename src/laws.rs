use crate::client_state::{
    client_state_from_envelope,
    frozen_at,
    update_applies,
    upgrade_install_result,
    ClientStateView,
    CLIENT_STATE_TYPE_URL,
};
use crate::consensus_state::{
    consensus_state_bytes,
    consensus_state_from_envelope,
    lemma_consensus_state_bytes_round_trip,
    ConsensusStateView,
    CONSENSUS_STATE_TYPE_URL,
};
use crate::envelope::{entity_from_envelope, registered};
use crate::error::Error;
use crate::header::{
    header_bytes,
    header_from_envelope,
    lemma_header_bytes_round_trip,
    Header,
    HEADER_TYPE_URL,
};
use crate::height::{height_le, Height};
use vstd::prelude::*;

verus! {

/// A valid header, encoded under its type identifier, decodes to itself.
pub proof fn lemma_header_round_trip(h: Header)
    requires
        h.valid(),
    ensures
        header_from_envelope(HEADER_TYPE_URL@, header_bytes(h)) == Ok::<Header, Error>(h),
{
    lemma_header_bytes_round_trip(h);
}

/// A consensus state, encoded under its type identifier, decodes to itself.
pub proof fn lemma_consensus_state_round_trip(c: ConsensusStateView)
    ensures
        consensus_state_from_envelope(CONSENSUS_STATE_TYPE_URL@, consensus_state_bytes(c)) == Ok::<
            ConsensusStateView,
            Error,
        >(c),
{
    lemma_consensus_state_bytes_round_trip(c);
}

/// An envelope whose type identifier names no entity of this client fails to
/// decode with `UnrecognizedType`, whatever its body, both as an entity and as
/// each of the three entities.
pub proof fn lemma_unregistered_type_rejected(type_url: Seq<char>, value: Seq<u8>)
    requires
        !registered(type_url),
    ensures
        entity_from_envelope(type_url, value) == Err::<crate::envelope::EntityView, Error>(
            Error::UnrecognizedType,
        ),
        client_state_from_envelope(type_url, value) == Err::<ClientStateView, Error>(
            Error::UnrecognizedType,
        ),
        consensus_state_from_envelope(type_url, value) == Err::<ConsensusStateView, Error>(
            Error::UnrecognizedType,
        ),
        header_from_envelope(type_url, value) == Err::<Header, Error>(Error::UnrecognizedType),
{
}

/// Along any sequence of client states in which each comes from the one
/// before by `update_state` (whose contract keeps the latest height from
/// decreasing, and raises it strictly on success), the latest height never
/// decreases: a later state is at or above an earlier one.
pub proof fn lemma_updates_monotone(states: Seq<ClientStateView>)
    requires
        forall|k: int|
            0 <= k < states.len() - 1 ==> height_le(
                #[trigger] states[k].latest_height,
                states[k + 1].latest_height,
            ),
    ensures
        forall|i: int, j: int|
            0 <= i <= j < states.len() ==> height_le(
                #[trigger] states[i].latest_height,
                #[trigger] states[j].latest_height,
            ),
    decreases states.len(),
{
    if states.len() > 1 {
        let prefix = states.drop_last();
        assert forall|k: int| 0 <= k < prefix.len() - 1 implies height_le(
            #[trigger] prefix[k].latest_height,
            prefix[k + 1].latest_height,
        ) by {
            assert(states[k].latest_height == prefix[k].latest_height);
        }
        lemma_updates_monotone(prefix);
        let last = states.len() - 1;
        assert forall|i: int, j: int| 0 <= i <= j < states.len() implies height_le(
            #[trigger] states[i].latest_height,
            #[trigger] states[j].latest_height,
        ) by {
            if j < last {
                assert(prefix[i] == states[i] && prefix[j] == states[j]);
            } else if i < last {
                assert(prefix[i] == states[i] && prefix[last - 1] == states[last - 1]);
                crate::height::lemma_height_le_trans(
                    states[i].latest_height,
                    states[last - 1].latest_height,
                    states[j].latest_height,
                );
            }
        }
    }
}

/// An operation that changes a client state.
pub enum ClientOperation {
    /// `update_state`, with the consensus states stored before it and the
    /// header as decoded.
    Update(Seq<(Height, ConsensusStateView)>, Result<Header, Error>),
    /// `update_state_on_misbehaviour`.
    Misbehaviour,
    /// `update_state_with_upgrade_client`, with the upgraded entities as decoded.
    Upgrade(Result<ClientStateView, Error>, Result<ConsensusStateView, Error>),
}

/// The client after one operation, as the operation's contract gives it.
pub open spec fn apply_operation(c: ClientStateView, op: ClientOperation) -> ClientStateView {
    match op {
        ClientOperation::Update(stored, h) => if update_applies(c, stored, h) {
            c.at_height(h->Ok_0.height)
        } else {
            c
        },
        ClientOperation::Misbehaviour => ClientStateView { frozen_height: Some(frozen_at(c)), ..c },
        ClientOperation::Upgrade(u, s) => match upgrade_install_result(c, u, s) {
            Ok((n, _)) => n,
            Err(_) => c,
        },
    }
}

/// The client after a sequence of operations.
pub open spec fn apply_operations(c: ClientStateView, ops: Seq<ClientOperation>) -> ClientStateView
    decreases ops.len(),
{
    if ops.len() == 0 {
        c
    } else {
        apply_operation(apply_operations(c, ops.drop_last()), ops.last())
    }
}

/// Once frozen, a client stays frozen at the same height after any sequence of
/// operations; after misbehaviour it is frozen.
pub proof fn lemma_frozen_is_permanent(c: ClientStateView, ops: Seq<ClientOperation>)
    ensures
        apply_operation(c, ClientOperation::Misbehaviour).frozen_height is Some,
        c.frozen_height is Some ==> apply_operations(c, ops).frozen_height == c.frozen_height,
    decreases ops.len(),
{
    if ops.len() > 0 {
        lemma_frozen_is_permanent(c, ops.drop_last());
    }
}

} // verus!
