use prost::Message;
use vstd::prelude::*;

verus! {

/// The protobuf bytes of a localhost client-state message with the given chain
/// identifier and height.
pub uninterp spec fn raw_client_state_bytes(
    chain_id: Seq<char>,
    revision_number: u64,
    revision_height: u64,
) -> Seq<u8>;

/// The fields of the localhost client-state message that `b` holds, if `b` is
/// one: its chain identifier and, where present, its height.
pub uninterp spec fn raw_client_state_fields(b: Seq<u8>) -> Option<(Seq<char>, Option<(u64, u64)>)>;

#[verifier::external_type_specification]
#[verifier::external_body]
pub struct ExDecodeError(prost::DecodeError);

/// Relies on `prost::Message::encode_to_vec` for ibc-proto's localhost
/// `ClientState` message: the protobuf encoding of the two fields, from which
/// `prost::Message::decode` reads the same fields back. The derived encoder
/// writes fields in tag order and always writes a present height, so the
/// first byte is the key of field 1 (`0x0a`) or, for an empty chain
/// identifier, of field 2 (`0x12`).
#[verifier::external_body]
pub(crate) fn encode_raw_client_state(
    chain_id: &String,
    revision_number: u64,
    revision_height: u64,
) -> (r: Vec<u8>)
    ensures
        r@ == raw_client_state_bytes(chain_id@, revision_number, revision_height),
        raw_client_state_fields(r@) == Some((chain_id@, Some((revision_number, revision_height)))),
        r@.len() > 0 && (r@[0] == 0x0a || r@[0] == 0x12),
{
    let raw = ibc_proto::ibc::lightclients::localhost::v1::ClientState {
        chain_id: chain_id.clone(),
        height: Some(ibc_proto::ibc::core::client::v1::Height { revision_number, revision_height }),
    };
    raw.encode_to_vec()
}

/// Relies on `prost::Message::decode` for ibc-proto's localhost `ClientState`
/// message: it fails exactly on bytes that are no such message, and otherwise
/// gives the message's fields.
#[verifier::external_body]
pub(crate) fn decode_raw_client_state(b: &Vec<u8>) -> (r: Result<(String, Option<(u64, u64)>), prost::DecodeError>)
    ensures
        r matches Ok(v) ==> raw_client_state_fields(b@) == Some((v.0@, v.1)),
        r is Err ==> raw_client_state_fields(b@) is None,
{
    let raw = ibc_proto::ibc::lightclients::localhost::v1::ClientState::decode(b.as_slice())?;
    Ok((raw.chain_id, raw.height.map(|h| (h.revision_number, h.revision_height))))
}

} // verus!
