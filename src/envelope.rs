use crate::client_state::{
    client_state_from_envelope,
    ClientState,
    ClientStateView,
    CLIENT_STATE_TYPE_URL,
};
use crate::consensus_state::{
    consensus_state_from_envelope,
    ConsensusState,
    ConsensusStateView,
    CONSENSUS_STATE_TYPE_URL,
};
use crate::error::Error;
use crate::header::{header_from_envelope, Header, HEADER_TYPE_URL};
use vstd::prelude::*;

verus! {

/// The type-tagged wire form in which the client's entities cross its boundary.
#[derive(Debug, Clone, PartialEq, Eq)]
pub struct Envelope {
    pub type_url: String,
    pub value: Vec<u8>,
}

/// Any of the entities that travel in an envelope.
#[derive(Debug, Clone, PartialEq, Eq)]
pub enum Entity {
    ClientState(ClientState),
    ConsensusState(ConsensusState),
    Header(Header),
}

/// The mathematical content of an entity.
pub enum EntityView {
    ClientState(ClientStateView),
    ConsensusState(ConsensusStateView),
    Header(Header),
}

impl View for Entity {
    type V = EntityView;

    open spec fn view(&self) -> EntityView {
        match self {
            Entity::ClientState(c) => EntityView::ClientState(c@),
            Entity::ConsensusState(c) => EntityView::ConsensusState(c@),
            Entity::Header(h) => EntityView::Header(*h),
        }
    }
}

impl EntityView {
    /// The entities whose wire form keeps all of their content: valid headers,
    /// every consensus state, and valid client states.
    pub open spec fn round_trips(self) -> bool {
        match self {
            EntityView::ClientState(c) => c.valid(),
            EntityView::ConsensusState(_) => true,
            EntityView::Header(h) => h.valid(),
        }
    }
}

/// Whether a type identifier names an entity of this client.
pub open spec fn registered(type_url: Seq<char>) -> bool {
    type_url == CLIENT_STATE_TYPE_URL@ || type_url == CONSENSUS_STATE_TYPE_URL@ || type_url
        == HEADER_TYPE_URL@
}

/// What decoding an envelope gives: the entity its type identifier names, read
/// from its body.
pub open spec fn entity_from_envelope(type_url: Seq<char>, value: Seq<u8>) -> Result<
    EntityView,
    Error,
> {
    if type_url == CLIENT_STATE_TYPE_URL@ {
        match client_state_from_envelope(type_url, value) {
            Ok(c) => Ok(EntityView::ClientState(c)),
            Err(e) => Err(e),
        }
    } else if type_url == CONSENSUS_STATE_TYPE_URL@ {
        match consensus_state_from_envelope(type_url, value) {
            Ok(c) => Ok(EntityView::ConsensusState(c)),
            Err(e) => Err(e),
        }
    } else if type_url == HEADER_TYPE_URL@ {
        match header_from_envelope(type_url, value) {
            Ok(h) => Ok(EntityView::Header(h)),
            Err(e) => Err(e),
        }
    } else {
        Err(Error::UnrecognizedType)
    }
}

/// The three type identifiers are distinct.
pub proof fn lemma_type_urls_distinct()
    ensures
        CLIENT_STATE_TYPE_URL@ != CONSENSUS_STATE_TYPE_URL@,
        CLIENT_STATE_TYPE_URL@ != HEADER_TYPE_URL@,
        CONSENSUS_STATE_TYPE_URL@ != HEADER_TYPE_URL@,
{
    reveal_strlit("/ibc.lightclients.localhost.v1.ClientState");
    reveal_strlit("/ibc.lightclients.localhost.v1.ConsensusState");
    reveal_strlit("/ibc.lightclients.localhost.v1.Header");
    assert(CLIENT_STATE_TYPE_URL@.len() == 42);
    assert(CONSENSUS_STATE_TYPE_URL@.len() == 45);
    assert(HEADER_TYPE_URL@.len() == 37);
}

/// Decodes an envelope into the entity its type identifier names.
pub fn decode_envelope(env: &Envelope) -> (r: Result<Entity, Error>)
    ensures
        r matches Ok(e) ==> entity_from_envelope(env.type_url@, env.value@) == Ok::<
            EntityView,
            Error,
        >(e@),
        r matches Err(e) ==> entity_from_envelope(env.type_url@, env.value@) == Err::<
            EntityView,
            Error,
        >(e),
{
    let client_url = CLIENT_STATE_TYPE_URL.to_owned();
    let consensus_url = CONSENSUS_STATE_TYPE_URL.to_owned();
    let header_url = HEADER_TYPE_URL.to_owned();
    if env.type_url == client_url {
        match ClientState::from_envelope(env) {
            Ok(c) => Ok(Entity::ClientState(c)),
            Err(e) => Err(e),
        }
    } else if env.type_url == consensus_url {
        match ConsensusState::from_envelope(env) {
            Ok(c) => Ok(Entity::ConsensusState(c)),
            Err(e) => Err(e),
        }
    } else if env.type_url == header_url {
        match Header::from_envelope(env) {
            Ok(h) => Ok(Entity::Header(h)),
            Err(e) => Err(e),
        }
    } else {
        Err(Error::UnrecognizedType)
    }
}

/// Encodes an entity into an envelope under its type identifier; decoding the
/// envelope gives the entity back wherever its wire form keeps all of it.
pub fn encode_entity(e: &Entity) -> (r: Envelope)
    ensures
        registered(r.type_url@),
        e@.round_trips() ==> entity_from_envelope(r.type_url@, r.value@) == Ok::<
            EntityView,
            Error,
        >(e@),
{
    proof {
        lemma_type_urls_distinct();
    }
    match e {
        Entity::ClientState(c) => c.to_envelope(),
        Entity::ConsensusState(c) => {
            proof {
                crate::consensus_state::lemma_consensus_state_bytes_round_trip(c@);
            }
            c.to_envelope()
        },
        Entity::Header(h) => {
            proof {
                if h.valid() {
                    crate::header::lemma_header_bytes_round_trip(*h);
                }
            }
            h.to_envelope()
        },
    }
}

} // verus!
