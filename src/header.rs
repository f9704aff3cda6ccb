use crate::codec::{read_u64, write_u64};
use crate::envelope::Envelope;
use crate::error::Error;
use crate::height::Height;
use vstd::bytes::*;
use vstd::prelude::*;

verus! {

/// Type identifier of a header in an envelope.
pub const HEADER_TYPE_URL: &'static str = "/ibc.lightclients.localhost.v1.Header";

/// Length of an encoded header: revision number, revision height, timestamp.
pub const HEADER_LEN: usize = 24;

/// The claim presented to advance the client: a height of the host chain and
/// the host's block time there, in nanoseconds.
#[derive(Debug, Clone, Copy, PartialEq, Eq, Structural)]
pub struct Header {
    pub height: Height,
    pub timestamp: u64,
}

/// The bytes of a header: three little-endian `u64`s.
pub open spec fn header_bytes(h: Header) -> Seq<u8> {
    spec_u64_to_le_bytes(h.height.revision_number) + spec_u64_to_le_bytes(
        h.height.revision_height,
    ) + spec_u64_to_le_bytes(h.timestamp)
}

/// The header that `b` encodes, if any: exactly 24 bytes with a valid height.
pub open spec fn header_from_bytes(b: Seq<u8>) -> Option<Header> {
    if b.len() != 24 {
        None
    } else {
        let h = Header {
            height: Height {
                revision_number: spec_u64_from_le_bytes(b.subrange(0, 8)),
                revision_height: spec_u64_from_le_bytes(b.subrange(8, 16)),
            },
            timestamp: spec_u64_from_le_bytes(b.subrange(16, 24)),
        };
        if h.height.valid() {
            Some(h)
        } else {
            None
        }
    }
}

/// What decoding an envelope as a header gives.
pub open spec fn header_from_envelope(type_url: Seq<char>, value: Seq<u8>) -> Result<Header, Error> {
    if type_url != HEADER_TYPE_URL@ {
        Err(Error::UnrecognizedType)
    } else {
        match header_from_bytes(value) {
            Some(h) => Ok(h),
            None => Err(Error::MalformedPayload),
        }
    }
}

impl Header {
    pub open spec fn valid(self) -> bool {
        self.height.valid()
    }

    pub fn height(&self) -> (r: Height)
        ensures
            r == self.height,
    {
        self.height
    }

    pub fn timestamp(&self) -> (r: u64)
        ensures
            r == self.timestamp,
    {
        self.timestamp
    }

    /// Encodes the header's fields.
    pub fn encode_vec(&self) -> (r: Vec<u8>)
        ensures
            r@ == header_bytes(*self),
    {
        let mut out: Vec<u8> = Vec::new();
        write_u64(&mut out, self.height.revision_number);
        write_u64(&mut out, self.height.revision_height);
        write_u64(&mut out, self.timestamp);
        proof {
            lemma_empty_prefix_header_bytes(*self, out@);
        }
        out
    }

    /// Decodes a header's fields; fails unless `b` is 24 bytes with a valid height.
    pub fn decode_vec(b: &Vec<u8>) -> (r: Option<Header>)
        ensures
            r == header_from_bytes(b@),
    {
        if b.len() != HEADER_LEN {
            return None;
        }
        let revision_number = read_u64(b, 0);
        let revision_height = read_u64(b, 8);
        let timestamp = read_u64(b, 16);
        if revision_height == 0 {
            None
        } else {
            Some(Header { height: Height { revision_number, revision_height }, timestamp })
        }
    }

    /// Wraps the header in an envelope under its type identifier.
    pub fn to_envelope(&self) -> (r: Envelope)
        ensures
            r.type_url@ == HEADER_TYPE_URL@,
            r.value@ == header_bytes(*self),
    {
        Envelope { type_url: HEADER_TYPE_URL.to_owned(), value: self.encode_vec() }
    }

    /// Reads a header out of an envelope.
    pub fn from_envelope(env: &Envelope) -> (r: Result<Header, Error>)
        ensures
            r == header_from_envelope(env.type_url@, env.value@),
    {
        let url = HEADER_TYPE_URL.to_owned();
        if env.type_url != url {
            return Err(Error::UnrecognizedType);
        }
        match Header::decode_vec(&env.value) {
            Some(h) => Ok(h),
            None => Err(Error::MalformedPayload),
        }
    }
}

proof fn lemma_empty_prefix_header_bytes(h: Header, s: Seq<u8>)
    requires
        s == Seq::<u8>::empty() + spec_u64_to_le_bytes(h.height.revision_number)
            + spec_u64_to_le_bytes(h.height.revision_height) + spec_u64_to_le_bytes(
            h.timestamp,
        ),
    ensures
        s == header_bytes(h),
{
    assert(Seq::<u8>::empty() + spec_u64_to_le_bytes(h.height.revision_number)
        =~= spec_u64_to_le_bytes(h.height.revision_number));
}

/// Decoding the bytes of a valid header gives the header back.
pub proof fn lemma_header_bytes_round_trip(h: Header)
    requires
        h.valid(),
    ensures
        header_from_bytes(header_bytes(h)) == Some(h),
{
    lemma_auto_spec_u64_to_from_le_bytes();
    let a = spec_u64_to_le_bytes(h.height.revision_number);
    let b = spec_u64_to_le_bytes(h.height.revision_height);
    let c = spec_u64_to_le_bytes(h.timestamp);
    let s = header_bytes(h);
    assert(s.subrange(0, 8) =~= a);
    assert(s.subrange(8, 16) =~= b);
    assert(s.subrange(16, 24) =~= c);
}

} // verus!
