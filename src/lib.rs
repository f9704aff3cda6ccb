//! The `09-localhost` light client: a chain's client of itself.
pub mod client_state;
pub mod codec;
pub mod consensus_state;
pub mod envelope;
pub mod error;
pub mod header;
pub mod height;
pub mod host;
pub mod laws;
mod raw;

use vstd::prelude::*;

verus! {

/// The identifier of this client type.
pub fn client_type() -> (r: String)
    ensures
        r@ == client_state::CLIENT_TYPE@,
{
    client_state::CLIENT_TYPE.to_owned()
}

} // verus!
