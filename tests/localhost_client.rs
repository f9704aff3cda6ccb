use ics09_localhost::client_state::{
    upgraded_client_key_bytes, upgraded_consensus_key_bytes, ClientState, UpdateKind, CLIENT_STATE_TYPE_URL,
};
use ics09_localhost::consensus_state::{ConsensusState, CONSENSUS_STATE_TYPE_URL};
use ics09_localhost::envelope::{decode_envelope, encode_entity, Entity, Envelope};
use ics09_localhost::error::Error;
use ics09_localhost::header::{Header, HEADER_TYPE_URL};
use ics09_localhost::height::Height;
use ics09_localhost::host::HostContext;

fn h(n: u64, m: u64) -> Height {
    Height { revision_number: n, revision_height: m }
}

fn header_env(n: u64, m: u64, ts: u64) -> Envelope {
    Header { height: h(n, m), timestamp: ts }.to_envelope()
}

fn host_at(n: u64, m: u64, ts: u64) -> HostContext {
    HostContext::new(h(n, m), ts, vec![7, 7, 7])
}

fn client_at_ten() -> ClientState {
    ClientState::new("localhost-1".to_string(), h(0, 10))
}

#[test]
fn create_client_reports_its_height() {
    let cs = client_at_ten();
    assert_eq!(cs.latest_height(), h(0, 10));
    assert_eq!(cs.frozen_height(), None);
}

#[test]
fn update_state_advances_to_header_height() {
    let mut cs = client_at_ten();
    let mut host = host_at(0, 11, 500);
    let r = cs.update_state(&mut host, &header_env(0, 11, 500));
    assert_eq!(r, Ok(vec![h(0, 11)]));
    assert_eq!(cs.latest_height(), h(0, 11));
    let stored = host.consensus_state(h(0, 11)).unwrap();
    assert_eq!(stored.root(), &vec![7, 7, 7]);
    assert_eq!(stored.timestamp(), 500);
}

#[test]
fn proof_height_above_latest_is_rejected() {
    let mut cs = client_at_ten();
    let mut host = host_at(0, 11, 500);
    cs.update_state(&mut host, &header_env(0, 11, 500)).unwrap();
    assert_eq!(cs.validate_proof_height(h(0, 15)), Err(Error::InvalidProofHeight));
    assert_eq!(cs.validate_proof_height(h(0, 11)), Ok(()));
    assert_eq!(cs.validate_proof_height(h(0, 3)), Ok(()));
    assert_eq!(cs.validate_proof_height(h(1, 1)), Err(Error::InvalidProofHeight));
}

#[test]
fn client_state_envelope_round_trip() {
    let mut cs = client_at_ten();
    let mut host = host_at(0, 11, 500);
    cs.update_state(&mut host, &header_env(0, 11, 500)).unwrap();
    let env = cs.to_envelope();
    assert_eq!(env.type_url, CLIENT_STATE_TYPE_URL);
    assert_eq!(ClientState::from_envelope(&env), Ok(cs.clone()));
    assert_eq!(decode_envelope(&env), Ok(Entity::ClientState(cs)));
}

#[test]
fn client_state_wire_bytes_are_protobuf() {
    let env = client_at_ten().to_envelope();
    let mut expected = vec![0x0a, 11];
    expected.extend_from_slice(b"localhost-1");
    expected.extend_from_slice(&[0x12, 2, 0x10, 10]);
    assert_eq!(env.value, expected);
}

#[test]
fn bogus_type_is_unrecognized() {
    let env = Envelope { type_url: "/bogus.Type".to_string(), value: vec![1, 2, 3] };
    assert_eq!(decode_envelope(&env), Err(Error::UnrecognizedType));
    assert_eq!(ClientState::from_envelope(&env), Err(Error::UnrecognizedType));
    assert_eq!(ConsensusState::from_envelope(&env), Err(Error::UnrecognizedType));
    assert_eq!(Header::from_envelope(&env), Err(Error::UnrecognizedType));
    let empty = Envelope { type_url: String::new(), value: vec![] };
    assert_eq!(decode_envelope(&empty), Err(Error::UnrecognizedType));
}

#[test]
fn misbehaviour_freezes_the_client() {
    let mut cs = client_at_ten();
    assert_eq!(cs.confirm_not_frozen(), Ok(()));
    let msg = header_env(0, 10, 1);
    assert_eq!(cs.update_state_on_misbehaviour(&msg, UpdateKind::Misbehaviour), Ok(()));
    assert_eq!(cs.confirm_not_frozen(), Err(Error::ClientFrozen));
    assert_eq!(cs.frozen_height(), Some(h(0, 10)));
    let mut host = host_at(0, 11, 500);
    assert_eq!(cs.update_state(&mut host, &header_env(0, 11, 500)), Err(Error::ClientFrozen));
    assert_eq!(cs.latest_height(), h(0, 10));
    assert_eq!(host.consensus_state(h(0, 11)), None);
}

#[test]
fn frozen_height_is_kept_by_later_misbehaviour() {
    let mut cs = client_at_ten();
    let mut host = host_at(0, 12, 9);
    cs.update_state(&mut host, &header_env(0, 12, 9)).unwrap();
    cs.update_state_on_misbehaviour(&header_env(0, 12, 9), UpdateKind::Misbehaviour).unwrap();
    cs.update_state_on_misbehaviour(&header_env(0, 12, 9), UpdateKind::Misbehaviour).unwrap();
    assert_eq!(cs.frozen_height(), Some(h(0, 12)));
}

#[test]
fn frozen_client_refuses_verification() {
    let mut cs = client_at_ten();
    cs.update_state_on_misbehaviour(&header_env(0, 10, 1), UpdateKind::Misbehaviour).unwrap();
    let mut host = host_at(0, 10, 1);
    host.set(b"p/k".to_vec(), b"v".to_vec());
    let r = cs.verify_membership(&host, &b"p/".to_vec(), &vec![], &vec![], &b"k".to_vec(), &b"v".to_vec());
    assert_eq!(r, Err(Error::ClientFrozen));
    let r = cs.verify_non_membership(&host, &b"p/".to_vec(), &vec![], &vec![], &b"x".to_vec());
    assert_eq!(r, Err(Error::ClientFrozen));
    let r = cs.verify_client_message(&host, &header_env(0, 10, 1), UpdateKind::UpdateClient);
    assert_eq!(r, Err(Error::ClientFrozen));
    let up = ClientState::new("localhost-2".to_string(), h(1, 1)).to_envelope();
    let upc = ConsensusState { root: vec![1], timestamp: 2 }.to_envelope();
    assert_eq!(cs.verify_upgrade_client(&host, &up, &upc, &vec![], &vec![], &vec![7, 7, 7]), Err(Error::ClientFrozen));
    assert_eq!(cs.update_state_with_upgrade_client(&up, &upc), Err(Error::ClientFrozen));
    assert_eq!(cs.frozen_height(), Some(h(0, 10)));
}

#[test]
fn update_below_latest_height_is_refused() {
    let mut cs = client_at_ten();
    let mut host = host_at(0, 9, 1);
    assert_eq!(cs.update_state(&mut host, &header_env(0, 9, 1)), Err(Error::InvalidHeader));
    assert_eq!(cs.latest_height(), h(0, 10));
    assert_eq!(host.consensus_state(h(0, 9)), None);
}

#[test]
fn updates_keep_heights_non_decreasing() {
    let mut cs = client_at_ten();
    let mut host = host_at(0, 10, 1);
    let mut last = cs.latest_height();
    for (n, m) in [(0u64, 10u64), (0, 12), (0, 11), (1, 1), (0, 50), (1, 3)] {
        let before = cs.latest_height();
        match cs.update_state(&mut host, &header_env(n, m, 1)) {
            Ok(heights) => {
                assert!(!heights.is_empty());
                for x in heights {
                    assert!(before.le(&x));
                }
            }
            Err(e) => assert_eq!(e, Error::InvalidHeader),
        }
        assert!(last.le(&cs.latest_height()));
        last = cs.latest_height();
    }
    assert_eq!(cs.latest_height(), h(1, 3));
}

#[test]
fn update_with_malformed_header_is_refused() {
    let mut cs = client_at_ten();
    let mut host = host_at(0, 11, 1);
    let short = Envelope { type_url: HEADER_TYPE_URL.to_string(), value: vec![1, 2, 3] };
    assert_eq!(cs.update_state(&mut host, &short), Err(Error::MalformedPayload));
    let wrong = ConsensusState { root: vec![1], timestamp: 2 }.to_envelope();
    assert_eq!(cs.update_state(&mut host, &wrong), Err(Error::UnrecognizedType));
    assert_eq!(cs.latest_height(), h(0, 10));
}

#[test]
fn header_round_trip_and_zero_height() {
    let hd = Header { height: h(3, 4), timestamp: 99 };
    let env = hd.to_envelope();
    assert_eq!(env.value.len(), 24);
    assert_eq!(&env.value[0..8], &3u64.to_le_bytes());
    assert_eq!(Header::from_envelope(&env), Ok(hd));
    assert_eq!(decode_envelope(&env), Ok(Entity::Header(hd)));
    assert_eq!(hd.height(), h(3, 4));
    assert_eq!(hd.timestamp(), 99);
    let zero = Header { height: h(3, 0), timestamp: 99 }.to_envelope();
    assert_eq!(Header::from_envelope(&zero), Err(Error::MalformedPayload));
}

#[test]
fn consensus_state_round_trip() {
    let c = ConsensusState { root: vec![9, 8, 7], timestamp: 0x0102 };
    let env = c.to_envelope();
    assert_eq!(env.type_url, CONSENSUS_STATE_TYPE_URL);
    assert_eq!(env.value, vec![2, 1, 0, 0, 0, 0, 0, 0, 9, 8, 7]);
    assert_eq!(ConsensusState::from_envelope(&env), Ok(c.clone()));
    assert_eq!(decode_envelope(&env), Ok(Entity::ConsensusState(c)));
    let short = Envelope { type_url: CONSENSUS_STATE_TYPE_URL.to_string(), value: vec![1; 7] };
    assert_eq!(ConsensusState::from_envelope(&short), Err(Error::MalformedPayload));
}

#[test]
fn encode_entity_round_trips() {
    let entities = vec![
        Entity::ClientState(client_at_ten()),
        Entity::ConsensusState(ConsensusState { root: vec![], timestamp: 5 }),
        Entity::Header(Header { height: h(0, 1), timestamp: 0 }),
    ];
    for e in entities {
        let env = encode_entity(&e);
        assert_eq!(decode_envelope(&env), Ok(e));
    }
}

#[test]
fn client_state_malformed_payloads() {
    let garbage = Envelope { type_url: CLIENT_STATE_TYPE_URL.to_string(), value: vec![0xff, 0xff, 0xff] };
    assert_eq!(ClientState::from_envelope(&garbage), Err(Error::MalformedPayload));
    let bad_proto = Envelope { type_url: CLIENT_STATE_TYPE_URL.to_string(), value: vec![0, 0x0a, 1, b'a'] };
    assert_eq!(ClientState::from_envelope(&bad_proto), Err(Error::MalformedPayload));
    let mut zero_frozen = vec![0x1au8, 16];
    zero_frozen.extend_from_slice(&[0; 16]);
    zero_frozen.extend_from_slice(&[0x0a, 1, b'a', 0x12, 2, 0x10, 10]);
    let zero_frozen = Envelope { type_url: CLIENT_STATE_TYPE_URL.to_string(), value: zero_frozen };
    assert_eq!(ClientState::from_envelope(&zero_frozen), Err(Error::MalformedPayload));
    let empty = Envelope { type_url: CLIENT_STATE_TYPE_URL.to_string(), value: vec![] };
    assert_eq!(ClientState::from_envelope(&empty), Err(Error::MalformedPayload));
    let no_height = Envelope { type_url: CLIENT_STATE_TYPE_URL.to_string(), value: vec![0x0a, 1, b'a'] };
    assert_eq!(ClientState::from_envelope(&no_height), Err(Error::MalformedPayload));
    assert_eq!(ClientState::from_raw("a".to_string(), Some((1, 0))), Err(Error::MalformedPayload));
    assert_eq!(ClientState::from_raw("a".to_string(), None), Err(Error::MalformedPayload));
    assert_eq!(
        ClientState::from_raw("a".to_string(), Some((1, 2))),
        Ok(ClientState::new("a".to_string(), h(1, 2)))
    );
}

#[test]
fn membership_reads_the_host_store() {
    let cs = client_at_ten();
    let mut host = host_at(0, 10, 1);
    host.set(b"ibc/clients/a".to_vec(), b"one".to_vec());
    host.set(b"ibc/clients/a".to_vec(), b"two".to_vec());
    let prefix = b"ibc/".to_vec();
    let path = b"clients/a".to_vec();
    assert_eq!(cs.verify_membership(&host, &prefix, &vec![], &vec![], &path, &b"two".to_vec()), Ok(()));
    assert_eq!(
        cs.verify_membership(&host, &prefix, &vec![], &vec![], &path, &b"one".to_vec()),
        Err(Error::CommitmentMismatch)
    );
    let missing = b"clients/b".to_vec();
    assert_eq!(
        cs.verify_membership(&host, &prefix, &vec![], &vec![], &missing, &b"two".to_vec()),
        Err(Error::CommitmentMismatch)
    );
    assert_eq!(cs.verify_non_membership(&host, &prefix, &vec![], &vec![], &missing), Ok(()));
    assert_eq!(
        cs.verify_non_membership(&host, &prefix, &vec![], &vec![], &path),
        Err(Error::CommitmentMismatch)
    );
    assert_eq!(host.get(&b"ibc/clients/a".to_vec()), Some(b"two".to_vec()));
}

#[test]
fn client_message_verification() {
    let cs = client_at_ten();
    let host = host_at(0, 11, 77);
    assert_eq!(cs.verify_client_message(&host, &header_env(0, 11, 77), UpdateKind::UpdateClient), Ok(()));
    assert_eq!(cs.verify_client_message(&host, &header_env(0, 12, 78), UpdateKind::UpdateClient), Ok(()));
    assert_eq!(cs.verify_client_message(&host, &header_env(0, 3, 1), UpdateKind::UpdateClient), Ok(()));
    let short = Envelope { type_url: HEADER_TYPE_URL.to_string(), value: vec![1] };
    assert_eq!(
        cs.verify_client_message(&host, &short, UpdateKind::UpdateClient),
        Err(Error::MalformedPayload)
    );
    assert_eq!(
        cs.verify_client_message(&host, &header_env(0, 11, 77), UpdateKind::Misbehaviour),
        Err(Error::Unsupported)
    );
    assert_eq!(cs.check_for_misbehaviour(&host, &header_env(0, 11, 77), UpdateKind::UpdateClient), Ok(false));
}

#[test]
fn initialise_validates_consensus_state() {
    let cs = client_at_ten();
    let good = ConsensusState { root: vec![1, 2], timestamp: 3 };
    assert_eq!(cs.initialise(&good.to_envelope()), Ok(good));
    let empty_root = ConsensusState { root: vec![], timestamp: 3 }.to_envelope();
    assert_eq!(cs.initialise(&empty_root), Err(Error::InvalidConsensusState));
    let bad = Envelope { type_url: "/x".to_string(), value: vec![] };
    assert_eq!(cs.initialise(&bad), Err(Error::InvalidConsensusState));
}

fn upgrade_host(client: &Envelope, consensus: &Envelope) -> HostContext {
    let mut host = host_at(0, 10, 1);
    host.set(b"upgradedIBCState/10/upgradedClient".to_vec(), client.value.clone());
    host.set(b"upgradedIBCState/10/upgradedConsState".to_vec(), consensus.value.clone());
    host
}

#[test]
fn upgrade_checks_and_installs() {
    let mut cs = client_at_ten();
    let upc = ConsensusState { root: vec![4], timestamp: 8 };
    let higher = ClientState::new("localhost-2".to_string(), h(1, 1));
    let lower = ClientState::new("localhost-0".to_string(), h(0, 9));
    let e = upc.to_envelope();
    let root = vec![7, 7, 7];
    let host = upgrade_host(&higher.to_envelope(), &e);
    assert_eq!(cs.verify_upgrade_client(&host, &higher.to_envelope(), &e, &vec![], &vec![], &root), Ok(()));
    assert_eq!(
        cs.verify_upgrade_client(&host, &higher.to_envelope(), &e, &vec![], &vec![], &vec![1]),
        Err(Error::UpgradeVerificationFailed)
    );
    let other = ClientState::new("localhost-3".to_string(), h(1, 1)).to_envelope();
    assert_eq!(
        cs.verify_upgrade_client(&host, &other, &e, &vec![], &vec![], &root),
        Err(Error::UpgradeVerificationFailed)
    );
    let lower_host = upgrade_host(&lower.to_envelope(), &e);
    assert_eq!(
        cs.verify_upgrade_client(&lower_host, &lower.to_envelope(), &e, &vec![], &vec![], &root),
        Err(Error::UpgradeVerificationFailed)
    );
    let mut wrong_plan = host_at(0, 10, 1);
    wrong_plan.set(b"upgradedIBCState/11/upgradedClient".to_vec(), higher.to_envelope().value);
    wrong_plan.set(b"upgradedIBCState/11/upgradedConsState".to_vec(), e.value.clone());
    assert_eq!(
        cs.verify_upgrade_client(&wrong_plan, &higher.to_envelope(), &e, &vec![], &vec![], &root),
        Err(Error::UpgradeVerificationFailed)
    );
    let empty_host = host_at(0, 10, 1);
    assert_eq!(
        cs.verify_upgrade_client(&empty_host, &higher.to_envelope(), &e, &vec![], &vec![], &root),
        Err(Error::UpgradeVerificationFailed)
    );
    let bogus = Envelope { type_url: "/bogus.Type".to_string(), value: vec![] };
    assert_eq!(
        cs.verify_upgrade_client(&host, &higher.to_envelope(), &bogus, &vec![], &vec![], &root),
        Err(Error::UnrecognizedType)
    );
    assert_eq!(
        cs.update_state_with_upgrade_client(&lower.to_envelope(), &e),
        Err(Error::UpgradeVerificationFailed)
    );
    assert_eq!(cs.latest_height(), h(0, 10));
    assert_eq!(cs.update_state_with_upgrade_client(&higher.to_envelope(), &e), Ok((higher.clone(), upc)));
    assert_eq!(cs, higher);
}

#[test]
fn frozen_client_state_round_trip() {
    let mut cs = client_at_ten();
    cs.update_state_on_misbehaviour(&header_env(0, 10, 1), UpdateKind::Misbehaviour).unwrap();
    let env = cs.to_envelope();
    assert_eq!(&env.value[0..2], &[0x1a, 16]);
    assert_eq!(&env.value[10..18], &10u64.to_le_bytes());
    assert_eq!(&env.value[18..], &client_at_ten().to_envelope().value[..]);
    let back = ClientState::from_envelope(&env).unwrap();
    assert_eq!(back, cs);
    assert_eq!(back.confirm_not_frozen(), Err(Error::ClientFrozen));
    assert_eq!(decode_envelope(&encode_entity(&Entity::ClientState(cs.clone()))), Ok(Entity::ClientState(cs)));
}

#[test]
fn update_at_latest_or_stored_height_is_refused() {
    let mut cs = client_at_ten();
    let mut host = host_at(0, 10, 1);
    assert_eq!(cs.update_state(&mut host, &header_env(0, 10, 1)), Err(Error::InvalidHeader));
    host.store_consensus_state(h(0, 12), ConsensusState { root: vec![1], timestamp: 1 });
    assert_eq!(cs.update_state(&mut host, &header_env(0, 12, 2)), Err(Error::InvalidHeader));
    assert_eq!(cs.latest_height(), h(0, 10));
    assert_eq!(host.consensus_state(h(0, 12)).unwrap().timestamp(), 1);
    assert_eq!(cs.update_state(&mut host, &header_env(0, 13, 2)), Ok(vec![h(0, 13)]));
}

#[test]
fn client_type_and_expiry() {
    let cs = client_at_ten();
    assert_eq!(cs.client_type(), "09-localhost");
    assert_eq!(ics09_localhost::client_type(), "09-localhost");
    assert!(!cs.expired(u64::MAX));
    assert!(!cs.expired(0));
}

#[test]
fn height_order_and_validity() {
    assert_eq!(Height::new(1, 0), None);
    assert_eq!(Height::new(1, 2), Some(h(1, 2)));
    assert!(h(0, 99).lt(&h(1, 1)));
    assert!(!h(1, 1).lt(&h(1, 1)));
    assert!(h(1, 1).le(&h(1, 1)));
    assert_eq!(h(2, 3).revision_number(), 2);
    assert_eq!(h(2, 3).revision_height(), 3);
}

#[test]
fn upgrade_keys_carry_the_plan_height() {
    assert_eq!(upgraded_client_key_bytes(10), b"upgradedIBCState/10/upgradedClient".to_vec());
    assert_eq!(upgraded_consensus_key_bytes(0), b"upgradedIBCState/0/upgradedConsState".to_vec());
    assert_eq!(
        upgraded_client_key_bytes(u64::MAX),
        b"upgradedIBCState/18446744073709551615/upgradedClient".to_vec()
    );
}

#[test]
fn unfrozen_body_is_the_plain_message() {
    let env = ClientState::new(String::new(), h(2, 3)).to_envelope();
    assert_eq!(env.value, vec![0x12, 4, 0x08, 2, 0x10, 3]);
    assert_eq!(ClientState::from_envelope(&env), Ok(ClientState::new(String::new(), h(2, 3))));
}
