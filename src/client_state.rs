use crate::codec::{bytes_equal, concat, decimal, decimal_bytes, read_u64, suffix, write_u64};
use crate::consensus_state::{consensus_state_from_envelope, ConsensusState, ConsensusStateView};
use crate::envelope::Envelope;
use crate::error::Error;
use crate::header::{header_from_envelope, Header};
use crate::height::{height_le, height_lt, Height};
use crate::host::{consensus_lookup, store_lookup, HostContext};
use crate::raw::{
    decode_raw_client_state,
    encode_raw_client_state,
    raw_client_state_bytes,
    raw_client_state_fields,
};
use vstd::bytes::*;
use vstd::prelude::*;

verus! {

/// Type identifier of a client state in an envelope.
pub const CLIENT_STATE_TYPE_URL: &'static str = "/ibc.lightclients.localhost.v1.ClientState";

/// Identifier of this client type.
pub const CLIENT_TYPE: &'static str = "09-localhost";

/// The two kinds of client message.
#[derive(Debug, Clone, Copy, PartialEq, Eq, Structural)]
pub enum UpdateKind {
    UpdateClient,
    Misbehaviour,
}

/// The client's view of its own chain: the chain identifier, the latest height
/// it was updated to, and the height at which it was frozen, if it was.
#[derive(Debug, Clone, PartialEq, Eq)]
pub struct ClientState {
    pub chain_id: String,
    pub height: Height,
    pub frozen_height: Option<Height>,
}

/// The mathematical content of a client state.
pub struct ClientStateView {
    pub chain_id: Seq<char>,
    pub latest_height: Height,
    pub frozen_height: Option<Height>,
}

impl View for ClientState {
    type V = ClientStateView;

    open spec fn view(&self) -> ClientStateView {
        ClientStateView {
            chain_id: self.chain_id@,
            latest_height: self.height,
            frozen_height: self.frozen_height,
        }
    }
}

impl ClientStateView {
    pub open spec fn valid(self) -> bool {
        &&& self.latest_height.valid()
        &&& self.frozen_height matches Some(f) ==> f.valid()
    }

    /// The same client at another latest height.
    pub open spec fn at_height(self, h: Height) -> ClientStateView {
        ClientStateView { latest_height: h, ..self }
    }
}

/// Key of the frozen-height field of a client state's wire bytes: field 3,
/// length-delimited. The localhost message has no field 3, so protobuf
/// readers skip it.
pub const FROZEN_HEIGHT_KEY: u8 = 0x1a;

/// Length of the frozen-height field's value: two little-endian `u64`s.
pub const FROZEN_HEIGHT_LEN: u8 = 16;

/// The field that leads a frozen client state's wire bytes: the key, the
/// length, and the little-endian frozen height. An unfrozen client has none.
pub open spec fn frozen_marker(frozen_height: Option<Height>) -> Seq<u8> {
    match frozen_height {
        None => Seq::<u8>::empty(),
        Some(f) => seq![FROZEN_HEIGHT_KEY, FROZEN_HEIGHT_LEN] + spec_u64_to_le_bytes(
            f.revision_number,
        ) + spec_u64_to_le_bytes(f.revision_height),
    }
}

/// The frozen height that the field leading `b` gives, and the field's
/// length; bytes that do not start with the field are an unfrozen client's.
pub open spec fn frozen_from_bytes(b: Seq<u8>) -> Option<(Option<Height>, int)> {
    if b.len() >= 18 && b[0] == FROZEN_HEIGHT_KEY && b[1] == FROZEN_HEIGHT_LEN {
        let f = Height {
            revision_number: spec_u64_from_le_bytes(b.subrange(2, 10)),
            revision_height: spec_u64_from_le_bytes(b.subrange(10, 18)),
        };
        if f.valid() {
            Some((Some(f), 18))
        } else {
            None
        }
    } else {
        Some((None, 0))
    }
}

/// The wire bytes of a client state: the protobuf message with its chain
/// identifier and latest height, led by the frozen-height field if frozen.
pub open spec fn client_state_bytes(c: ClientStateView) -> Seq<u8> {
    frozen_marker(c.frozen_height) + raw_client_state_bytes(
        c.chain_id,
        c.latest_height.revision_number,
        c.latest_height.revision_height,
    )
}

/// The client state that decoded fields describe: the height must be present
/// and valid. A decoded client is never frozen.
pub open spec fn client_state_from_raw(chain_id: Seq<char>, height: Option<(u64, u64)>) -> Result<
    ClientStateView,
    Error,
> {
    match height {
        None => Err(Error::MalformedPayload),
        Some((n, h)) => if h == 0 {
            Err(Error::MalformedPayload)
        } else {
            Ok(
                ClientStateView {
                    chain_id,
                    latest_height: Height { revision_number: n, revision_height: h },
                    frozen_height: None,
                },
            )
        },
    }
}

/// What decoding an envelope as a client state gives.
pub open spec fn client_state_from_envelope(type_url: Seq<char>, value: Seq<u8>) -> Result<
    ClientStateView,
    Error,
> {
    if type_url != CLIENT_STATE_TYPE_URL@ {
        Err(Error::UnrecognizedType)
    } else {
        match frozen_from_bytes(value) {
            None => Err(Error::MalformedPayload),
            Some((f, k)) => match raw_client_state_fields(value.subrange(k, value.len() as int)) {
                None => Err(Error::MalformedPayload),
                Some((c, h)) => match client_state_from_raw(c, h) {
                    Ok(v) => Ok(ClientStateView { frozen_height: f, ..v }),
                    Err(e) => Err(e),
                },
            },
        }
    }
}

/// Decoding the frozen-height field followed by a message gives the frozen
/// height back, and the message after it.
pub proof fn lemma_frozen_marker_round_trip(f: Option<Height>, rest: Seq<u8>)
    requires
        f matches Some(h) ==> h.valid(),
        rest.len() > 0 && (rest[0] == 0x0a || rest[0] == 0x12),
    ensures
        frozen_from_bytes(frozen_marker(f) + rest) == Some((f, frozen_marker(f).len() as int)),
        (frozen_marker(f) + rest).subrange(
            frozen_marker(f).len() as int,
            (frozen_marker(f) + rest).len() as int,
        ) == rest,
{
    lemma_auto_spec_u64_to_from_le_bytes();
    let b = frozen_marker(f) + rest;
    assert(b.subrange(frozen_marker(f).len() as int, b.len() as int) =~= rest);
    if let Some(h) = f {
        assert(b.subrange(2, 10) =~= spec_u64_to_le_bytes(h.revision_number));
        assert(b.subrange(10, 18) =~= spec_u64_to_le_bytes(h.revision_height));
    }
}

impl ClientState {
    /// A client of the chain `chain_id`, at `height`, not frozen.
    pub fn new(chain_id: String, height: Height) -> (r: ClientState)
        requires
            height.valid(),
        ensures
            r@ == (ClientStateView { chain_id: chain_id@, latest_height: height, frozen_height: None }),
            r@.valid(),
    {
        ClientState { chain_id, height, frozen_height: None }
    }

    /// The identifier of this client type.
    pub fn client_type(&self) -> (r: String)
        ensures
            r@ == CLIENT_TYPE@,
    {
        crate::client_type()
    }

    /// The latest height the client was updated to.
    pub fn latest_height(&self) -> (r: Height)
        ensures
            r == self@.latest_height,
    {
        self.height
    }

    /// The height at which the client was frozen, if it was.
    pub fn frozen_height(&self) -> (r: Option<Height>)
        ensures
            r == self@.frozen_height,
    {
        self.frozen_height
    }

    /// A proof can only be checked against a height the client has observed.
    pub fn validate_proof_height(&self, proof_height: Height) -> (r: Result<(), Error>)
        ensures
            height_lt(self@.latest_height, proof_height) ==> r == Err::<(), Error>(
                Error::InvalidProofHeight,
            ),
            !height_lt(self@.latest_height, proof_height) ==> r == Ok::<(), Error>(()),
    {
        if self.height.lt(&proof_height) {
            Err(Error::InvalidProofHeight)
        } else {
            Ok(())
        }
    }

    /// Fails once the client is frozen.
    pub fn confirm_not_frozen(&self) -> (r: Result<(), Error>)
        ensures
            self@.frozen_height is Some ==> r == Err::<(), Error>(Error::ClientFrozen),
            self@.frozen_height is None ==> r == Ok::<(), Error>(()),
    {
        match self.frozen_height {
            Some(_) => Err(Error::ClientFrozen),
            None => Ok(()),
        }
    }

    /// A chain cannot stop trusting itself: the client never expires, whatever
    /// time (in nanoseconds) has passed.
    pub fn expired(&self, elapsed: u64) -> (r: bool)
        ensures
            !r,
    {
        false
    }

    /// Reads the initial consensus state of the client out of its envelope; it
    /// must decode and commit to a non-empty root.
    pub fn initialise(&self, consensus_state: &Envelope) -> (r: Result<ConsensusState, Error>)
        ensures
            r matches Ok(c) ==> consensus_state_from_envelope(
                consensus_state.type_url@,
                consensus_state.value@,
            ) == Ok::<ConsensusStateView, Error>(c@) && c@.root.len() > 0,
            r is Err ==> r == Err::<ConsensusState, Error>(Error::InvalidConsensusState),
            (consensus_state_from_envelope(consensus_state.type_url@, consensus_state.value@) matches Ok(
                v,
            ) && v.root.len() > 0) ==> r is Ok,
    {
        match ConsensusState::from_envelope(consensus_state) {
            Ok(c) => {
                if c.root.len() == 0 {
                    Err(Error::InvalidConsensusState)
                } else {
                    Ok(c)
                }
            },
            Err(_) => Err(Error::InvalidConsensusState),
        }
    }

    /// Checks a client message. A header comes from the host's own block
    /// production, so any header that decodes is authentic; this client type
    /// has no misbehaviour message. Nothing is written.
    pub fn verify_client_message(
        &self,
        host: &HostContext,
        client_message: &Envelope,
        update_kind: UpdateKind,
    ) -> (r: Result<(), Error>)
        ensures
            r == verify_client_message_result(
                self@,
                client_message.type_url@,
                client_message.value@,
                update_kind,
            ),
    {
        if self.frozen_height.is_some() {
            return Err(Error::ClientFrozen);
        }
        match update_kind {
            UpdateKind::Misbehaviour => Err(Error::Unsupported),
            UpdateKind::UpdateClient => {
                let _header = Header::from_envelope(client_message)?;
                Ok(())
            },
        }
    }

    /// A chain cannot contradict itself: no message is evidence of misbehaviour.
    pub fn check_for_misbehaviour(
        &self,
        host: &HostContext,
        client_message: &Envelope,
        update_kind: UpdateKind,
    ) -> (r: Result<bool, Error>)
        ensures
            r == Ok::<bool, Error>(false),
    {
        Ok(false)
    }

    /// Advances the client to the header's height and keeps a consensus state
    /// there, holding the host's commitment root and the header's time. The
    /// header must be strictly above the latest height, at a height where no
    /// consensus state is stored yet. Either both writes happen or neither does.
    pub fn update_state(&mut self, host: &mut HostContext, header: &Envelope) -> (r: Result<
        Vec<Height>,
        Error,
    >)
        ensures
            r matches Ok(heights) ==> (header_from_envelope(header.type_url@, header.value@) matches Ok(
                hd,
            ) && update_applies(old(self)@, old(host).consensus_entries(), Ok(hd)) && heights@
                == seq![hd.height] && final(self)@
                == old(self)@.at_height(hd.height) && final(host).consensus_entries() == old(
                host,
            ).consensus_entries().push(
                (
                    hd.height,
                    ConsensusStateView { root: old(host).commitment_root@, timestamp: hd.timestamp },
                ),
            )),
            r matches Ok(heights) ==> heights@.len() > 0 && final(self)@.latest_height
                == heights@.last() && forall|i: int|
                0 <= i < heights@.len() ==> height_lt(old(self)@.latest_height, #[trigger] heights@[i])
                    && consensus_lookup(old(host).consensus_entries(), heights@[i]) is None,
            height_le(old(self)@.latest_height, final(self)@.latest_height),
            r matches Err(e) ==> e == update_error(
                old(self)@,
                header_from_envelope(header.type_url@, header.value@),
            ) && final(self)@ == old(self)@ && final(host).consensus_entries() == old(
                host,
            ).consensus_entries(),
            r is Ok <==> update_applies(
                old(self)@,
                old(host).consensus_entries(),
                header_from_envelope(header.type_url@, header.value@),
            ),
            old(self)@.valid() ==> final(self)@.valid(),
            final(host).entries() == old(host).entries(),
            final(host).host_height == old(host).host_height,
            final(host).host_timestamp == old(host).host_timestamp,
            final(host).commitment_root@ == old(host).commitment_root@,
    {
        if self.frozen_height.is_some() {
            return Err(Error::ClientFrozen);
        }
        let hd = Header::from_envelope(header)?;
        if !self.height.lt(&hd.height) {
            return Err(Error::InvalidHeader);
        }
        if host.consensus_state(hd.height).is_some() {
            return Err(Error::InvalidHeader);
        }
        let consensus = ConsensusState { root: host.commitment_root.clone(), timestamp: hd.timestamp };
        host.store_consensus_state(hd.height, consensus);
        self.height = hd.height;
        let mut heights: Vec<Height> = Vec::new();
        heights.push(hd.height);
        proof {
            assert(heights@ =~= seq![hd.height]);
        }
        Ok(heights)
    }

    /// Freezes the client at its latest height; a frozen client stays frozen
    /// at the height it was first frozen at. No consensus state is written.
    pub fn update_state_on_misbehaviour(
        &mut self,
        client_message: &Envelope,
        update_kind: UpdateKind,
    ) -> (r: Result<(), Error>)
        ensures
            r == Ok::<(), Error>(()),
            old(self)@.valid() ==> final(self)@.valid(),
            final(self)@ == (ClientStateView {
                frozen_height: Some(frozen_at(old(self)@)),
                ..old(self)@
            }),
    {
        if self.frozen_height.is_none() {
            self.frozen_height = Some(self.height);
        }
        Ok(())
    }

    /// Checks an upgrade against the host, which is its own prover: both
    /// upgraded entities must decode, `root` must be the host's commitment
    /// root, the host's store must hold exactly their wire bytes under the
    /// upgrade keys of the planned last height of the current revision (for
    /// this client, its latest height), and the upgraded client must be
    /// unfrozen and strictly above that height. The proofs carry nothing more.
    pub fn verify_upgrade_client(
        &self,
        host: &HostContext,
        upgraded_client_state: &Envelope,
        upgraded_consensus_state: &Envelope,
        proof_upgrade_client: &Vec<u8>,
        proof_upgrade_consensus_state: &Vec<u8>,
        root: &Vec<u8>,
    ) -> (r: Result<(), Error>)
        ensures
            r == verify_upgrade_result(
                self@,
                client_state_from_envelope(
                    upgraded_client_state.type_url@,
                    upgraded_client_state.value@,
                ),
                consensus_state_from_envelope(
                    upgraded_consensus_state.type_url@,
                    upgraded_consensus_state.value@,
                ),
                root@ == host.commitment_root@ && store_lookup(
                    host.entries(),
                    upgraded_client_key(self@.latest_height.revision_height),
                ) == Some(upgraded_client_state.value@) && store_lookup(
                    host.entries(),
                    upgraded_consensus_key(self@.latest_height.revision_height),
                ) == Some(upgraded_consensus_state.value@),
            ),
    {
        if self.frozen_height.is_some() {
            return Err(Error::ClientFrozen);
        }
        let upgraded = ClientState::from_envelope(upgraded_client_state)?;
        let _consensus = ConsensusState::from_envelope(upgraded_consensus_state)?;
        if !bytes_equal(root, &host.commitment_root) {
            return Err(Error::UpgradeVerificationFailed);
        }
        let client_key = upgraded_client_key_bytes(self.height.revision_height);
        let consensus_key = upgraded_consensus_key_bytes(self.height.revision_height);
        let committed = match host.get(&client_key) {
            Some(v) => bytes_equal(&v, &upgraded_client_state.value),
            None => false,
        };
        if !committed {
            return Err(Error::UpgradeVerificationFailed);
        }
        let committed = match host.get(&consensus_key) {
            Some(v) => bytes_equal(&v, &upgraded_consensus_state.value),
            None => false,
        };
        if !committed {
            return Err(Error::UpgradeVerificationFailed);
        }
        if self.height.lt(&upgraded.height) && upgraded.frozen_height.is_none() {
            Ok(())
        } else {
            Err(Error::UpgradeVerificationFailed)
        }
    }

    /// Installs the upgraded client and consensus states in place of the
    /// current ones, and returns them. A frozen client stays as it is, and an
    /// upgrade not above the latest height is refused.
    pub fn update_state_with_upgrade_client(
        &mut self,
        upgraded_client_state: &Envelope,
        upgraded_consensus_state: &Envelope,
    ) -> (r: Result<(ClientState, ConsensusState), Error>)
        ensures
            height_le(old(self)@.latest_height, final(self)@.latest_height),
            old(self)@.frozen_height is Some ==> final(self)@ == old(self)@,
            r matches Ok((c, s)) ==> upgrade_install_result(
                old(self)@,
                client_state_from_envelope(
                    upgraded_client_state.type_url@,
                    upgraded_client_state.value@,
                ),
                consensus_state_from_envelope(
                    upgraded_consensus_state.type_url@,
                    upgraded_consensus_state.value@,
                ),
            ) == Ok::<(ClientStateView, ConsensusStateView), Error>((c@, s@)) && final(self)@ == c@
                && c@.valid(),
            r matches Err(e) ==> upgrade_install_result(
                old(self)@,
                client_state_from_envelope(
                    upgraded_client_state.type_url@,
                    upgraded_client_state.value@,
                ),
                consensus_state_from_envelope(
                    upgraded_consensus_state.type_url@,
                    upgraded_consensus_state.value@,
                ),
            ) == Err::<(ClientStateView, ConsensusStateView), Error>(e) && final(self)@ == old(
                self,
            )@,
    {
        if self.frozen_height.is_some() {
            return Err(Error::ClientFrozen);
        }
        let upgraded = ClientState::from_envelope(upgraded_client_state)?;
        let consensus = ConsensusState::from_envelope(upgraded_consensus_state)?;
        if !self.height.lt(&upgraded.height) {
            return Err(Error::UpgradeVerificationFailed);
        }
        *self = upgraded.clone_state();
        Ok((upgraded, consensus))
    }

    /// Checks that `value` is stored under `prefix` followed by `path`. On this
    /// client the prover is the host itself, so the check reads the host's own
    /// store; `proof` and `root` carry nothing more.
    pub fn verify_membership(
        &self,
        host: &HostContext,
        prefix: &Vec<u8>,
        proof: &Vec<u8>,
        root: &Vec<u8>,
        path: &Vec<u8>,
        value: &Vec<u8>,
    ) -> (r: Result<(), Error>)
        ensures
            self@.frozen_height is Some ==> r == Err::<(), Error>(Error::ClientFrozen),
            self@.frozen_height is None ==> (r is Ok <==> store_lookup(
                host.entries(),
                prefix@ + path@,
            ) == Some(value@)),
            self@.frozen_height is None && r is Err ==> r == Err::<(), Error>(
                Error::CommitmentMismatch,
            ),
    {
        if self.frozen_height.is_some() {
            return Err(Error::ClientFrozen);
        }
        let key = concat(prefix, path);
        match host.get(&key) {
            Some(stored) => {
                if bytes_equal(&stored, value) {
                    Ok(())
                } else {
                    Err(Error::CommitmentMismatch)
                }
            },
            None => Err(Error::CommitmentMismatch),
        }
    }

    /// Checks that nothing is stored under `prefix` followed by `path`, in the
    /// host's own store.
    pub fn verify_non_membership(
        &self,
        host: &HostContext,
        prefix: &Vec<u8>,
        proof: &Vec<u8>,
        root: &Vec<u8>,
        path: &Vec<u8>,
    ) -> (r: Result<(), Error>)
        ensures
            self@.frozen_height is Some ==> r == Err::<(), Error>(Error::ClientFrozen),
            self@.frozen_height is None ==> (r is Ok <==> store_lookup(
                host.entries(),
                prefix@ + path@,
            ) is None),
            self@.frozen_height is None && r is Err ==> r == Err::<(), Error>(
                Error::CommitmentMismatch,
            ),
    {
        if self.frozen_height.is_some() {
            return Err(Error::ClientFrozen);
        }
        let key = concat(prefix, path);
        match host.get(&key) {
            Some(_) => Err(Error::CommitmentMismatch),
            None => Ok(()),
        }
    }

    /// A copy of the client state.
    pub fn clone_state(&self) -> (r: ClientState)
        ensures
            r@ == self@,
    {
        ClientState {
            chain_id: self.chain_id.clone(),
            height: self.height,
            frozen_height: self.frozen_height,
        }
    }

    /// Builds a client state from decoded wire fields.
    pub fn from_raw(chain_id: String, height: Option<(u64, u64)>) -> (r: Result<ClientState, Error>)
        ensures
            r matches Ok(c) ==> client_state_from_raw(chain_id@, height) == Ok::<
                ClientStateView,
                Error,
            >(c@) && c@.valid(),
            r matches Err(e) ==> client_state_from_raw(chain_id@, height) == Err::<
                ClientStateView,
                Error,
            >(e),
    {
        match height {
            None => Err(Error::MalformedPayload),
            Some((n, h)) => {
                match Height::new(n, h) {
                    None => Err(Error::MalformedPayload),
                    Some(hh) => Ok(ClientState { chain_id, height: hh, frozen_height: None }),
                }
            },
        }
    }

    /// Wraps the client state in an envelope under its type identifier. The
    /// body is the localhost protobuf message, led for a frozen client by a
    /// field that the message does not define, holding the frozen height; a
    /// valid client state decodes back to itself.
    pub fn to_envelope(&self) -> (r: Envelope)
        ensures
            r.type_url@ == CLIENT_STATE_TYPE_URL@,
            r.value@ == client_state_bytes(self@),
            self@.frozen_height is None ==> r.value@ == raw_client_state_bytes(
                self@.chain_id,
                self@.latest_height.revision_number,
                self@.latest_height.revision_height,
            ),
            self@.valid() ==> client_state_from_envelope(r.type_url@, r.value@) == Ok::<
                ClientStateView,
                Error,
            >(self@),
    {
        let mut marker: Vec<u8> = Vec::new();
        match self.frozen_height {
            None => {},
            Some(f) => {
                marker.push(FROZEN_HEIGHT_KEY);
                marker.push(FROZEN_HEIGHT_LEN);
                write_u64(&mut marker, f.revision_number);
                write_u64(&mut marker, f.revision_height);
            },
        }
        proof {
            assert(marker@ =~= frozen_marker(self.frozen_height));
        }
        let raw = encode_raw_client_state(
            &self.chain_id,
            self.height.revision_number,
            self.height.revision_height,
        );
        let value = concat(&marker, &raw);
        proof {
            assert(self.frozen_height is None ==> marker@ + raw@ =~= raw@);
            if self@.valid() {
                lemma_frozen_marker_round_trip(self.frozen_height, raw@);
            }
        }
        Envelope { type_url: CLIENT_STATE_TYPE_URL.to_owned(), value }
    }

    /// Reads a client state out of an envelope.
    pub fn from_envelope(env: &Envelope) -> (r: Result<ClientState, Error>)
        ensures
            r matches Ok(c) ==> client_state_from_envelope(env.type_url@, env.value@) == Ok::<
                ClientStateView,
                Error,
            >(c@) && c@.valid(),
            r matches Err(e) ==> client_state_from_envelope(env.type_url@, env.value@) == Err::<
                ClientStateView,
                Error,
            >(e),
    {
        let url = CLIENT_STATE_TYPE_URL.to_owned();
        if env.type_url != url {
            return Err(Error::UnrecognizedType);
        }
        let b = &env.value;
        let n = b.len();
        let (frozen_height, k): (Option<Height>, usize) = if n >= 18 && b[0] == FROZEN_HEIGHT_KEY
            && b[1] == FROZEN_HEIGHT_LEN {
            let revision_number = read_u64(b, 2);
            let revision_height = read_u64(b, 10);
            match Height::new(revision_number, revision_height) {
                Some(f) => (Some(f), 18),
                None => return Err(Error::MalformedPayload),
            }
        } else {
            (None, 0)
        };
        let rest = suffix(b, k);
        match decode_raw_client_state(&rest) {
            Ok((chain_id, height)) => {
                let mut c = ClientState::from_raw(chain_id, height)?;
                c.frozen_height = frozen_height;
                Ok(c)
            },
            Err(_) => Err(Error::MalformedPayload),
        }
    }
}

/// What checking a client message gives.
pub open spec fn verify_client_message_result(
    c: ClientStateView,
    type_url: Seq<char>,
    value: Seq<u8>,
    kind: UpdateKind,
) -> Result<(), Error> {
    if c.frozen_height is Some {
        Err(Error::ClientFrozen)
    } else {
        match kind {
            UpdateKind::Misbehaviour => Err(Error::Unsupported),
            UpdateKind::UpdateClient => match header_from_envelope(type_url, value) {
                Err(e) => Err(e),
                Ok(_) => Ok(()),
            },
        }
    }
}

/// Whether an update with a decoded header goes through, given the consensus
/// states already stored: the client is not frozen, the header decoded, it is
/// strictly above the latest height, and no consensus state is stored there.
pub open spec fn update_applies(
    c: ClientStateView,
    stored: Seq<(Height, ConsensusStateView)>,
    header: Result<Header, Error>,
) -> bool {
    &&& c.frozen_height is None
    &&& header matches Ok(h)
    &&& height_lt(c.latest_height, h.height)
    &&& consensus_lookup(stored, h.height) is None
}

/// The error of an update that does not go through.
pub open spec fn update_error(c: ClientStateView, header: Result<Header, Error>) -> Error {
    if c.frozen_height is Some {
        Error::ClientFrozen
    } else {
        match header {
            Err(e) => e,
            Ok(_) => Error::InvalidHeader,
        }
    }
}

/// The height a client is frozen at after misbehaviour: the one it was first
/// frozen at, else its latest height.
pub open spec fn frozen_at(c: ClientStateView) -> Height {
    match c.frozen_height {
        Some(f) => f,
        None => c.latest_height,
    }
}

/// What installing an upgrade gives: a frozen client refuses it; otherwise
/// both upgraded entities must decode and the upgraded client must stand
/// strictly above the latest height, which thus never decreases.
pub open spec fn upgrade_install_result(
    c: ClientStateView,
    upgraded: Result<ClientStateView, Error>,
    consensus: Result<ConsensusStateView, Error>,
) -> Result<(ClientStateView, ConsensusStateView), Error> {
    if c.frozen_height is Some {
        Err(Error::ClientFrozen)
    } else {
        match upgraded {
            Err(e) => Err(e),
            Ok(u) => match consensus {
                Err(e) => Err(e),
                Ok(s) => if height_lt(c.latest_height, u.latest_height) {
                    Ok((u, s))
                } else {
                    Err(Error::UpgradeVerificationFailed)
                },
            },
        }
    }
}

/// The start of every upgrade key: `upgradedIBCState/`.
pub open spec fn upgrade_key_prefix() -> Seq<u8> {
    seq![117u8, 112, 103, 114, 97, 100, 101, 100, 73, 66, 67, 83, 116, 97, 116, 101, 47]
}

/// The key under which the host commits to the client state of an upgrade
/// planned at `plan_height`: `upgradedIBCState/<plan_height>/upgradedClient`.
pub open spec fn upgraded_client_key(plan_height: u64) -> Seq<u8> {
    upgrade_key_prefix() + decimal(plan_height as nat) + seq![47u8, 117, 112, 103, 114, 97, 100, 101, 100, 67, 108, 105, 101, 110, 116]
}

/// The key under which the host commits to the consensus state of an upgrade
/// planned at `plan_height`: `upgradedIBCState/<plan_height>/upgradedConsState`.
pub open spec fn upgraded_consensus_key(plan_height: u64) -> Seq<u8> {
    upgrade_key_prefix() + decimal(plan_height as nat) + seq![47u8, 117, 112, 103, 114, 97, 100, 101, 100, 67, 111, 110, 115, 83, 116, 97, 116, 101]
}

/// The bytes of the upgraded client state's key for `plan_height`.
pub fn upgraded_client_key_bytes(plan_height: u64) -> (r: Vec<u8>)
    ensures
        r@ == upgraded_client_key(plan_height),
{
    let prefix: Vec<u8> = vec![117u8, 112, 103, 114, 97, 100, 101, 100, 73, 66, 67, 83, 116, 97, 116, 101, 47];
    let name: Vec<u8> = vec![47u8, 117, 112, 103, 114, 97, 100, 101, 100, 67, 108, 105, 101, 110, 116];
    let digits = decimal_bytes(plan_height);
    let r = concat(&concat(&prefix, &digits), &name);
    assert(prefix@ =~= upgrade_key_prefix());
    assert(name@ =~= seq![47u8, 117, 112, 103, 114, 97, 100, 101, 100, 67, 108, 105, 101, 110, 116]);
    r
}

/// The bytes of the upgraded consensus state's key for `plan_height`.
pub fn upgraded_consensus_key_bytes(plan_height: u64) -> (r: Vec<u8>)
    ensures
        r@ == upgraded_consensus_key(plan_height),
{
    let prefix: Vec<u8> = vec![117u8, 112, 103, 114, 97, 100, 101, 100, 73, 66, 67, 83, 116, 97, 116, 101, 47];
    let name: Vec<u8> = vec![47u8, 117, 112, 103, 114, 97, 100, 101, 100, 67, 111, 110, 115, 83, 116, 97, 116, 101];
    let digits = decimal_bytes(plan_height);
    let r = concat(&concat(&prefix, &digits), &name);
    assert(prefix@ =~= upgrade_key_prefix());
    assert(name@ =~= seq![47u8, 117, 112, 103, 114, 97, 100, 101, 100, 67, 111, 110, 115, 83, 116, 97, 116, 101]);
    r
}

/// What checking an upgrade gives, where `committed` says whether the host
/// commits to exactly the upgraded entities under its own root.
pub open spec fn verify_upgrade_result(
    c: ClientStateView,
    upgraded: Result<ClientStateView, Error>,
    consensus: Result<ConsensusStateView, Error>,
    committed: bool,
) -> Result<(), Error> {
    if c.frozen_height is Some {
        Err(Error::ClientFrozen)
    } else {
        match upgraded {
            Err(e) => Err(e),
            Ok(u) => match consensus {
                Err(e) => Err(e),
                Ok(_) => if committed && height_lt(c.latest_height, u.latest_height)
                    && u.frozen_height is None {
                    Ok(())
                } else {
                    Err(Error::UpgradeVerificationFailed)
                },
            },
        }
    }
}

} // verus!
