//! The raw signature payload of a U2F authenticator and the authenticator
//! data that is rebuilt from it.
//!
//! A payload is one byte of user presence, a four byte big-endian counter and
//! the signature itself.

use crate::encoding::encodable_len;
use crate::encoding::is_encodable_len;
use crate::error::SignError;
use vstd::arithmetic::div_mod::lemma_fundamental_div_mod_converse;
use vstd::prelude::*;

verus! {

/// The number of bytes before the signature: presence flag and counter.
pub const HEADER_LEN: usize = 5;

/// The fields of a raw signature payload.
#[derive(Debug)]
pub struct ParsedAssertion {
    pub user_presence: u8,
    pub counter: u32,
    pub signature: Vec<u8>,
}

/// What a signing operation yields before it is encoded for the wire: the
/// client data that was signed, the signature and the authenticator data.
#[derive(Debug)]
pub struct SignedAssertion {
    pub client_data: String,
    pub signature: Vec<u8>,
    pub authenticator_data: Vec<u8>,
}

impl SignedAssertion {
    /// Whether each of the three byte strings has a base64 text whose length
    /// fits in `usize`.
    pub open spec fn encodable(&self) -> bool {
        &&& encodable_len(vstd::utf8::encode_utf8(self.client_data@).len())
        &&& encodable_len(self.signature@.len())
        &&& encodable_len(self.authenticator_data@.len())
    }

    /// Decides `encodable`.
    pub fn is_encodable(&self) -> (fits: bool)
        ensures
            fits == self.encodable(),
    {
        is_encodable_len(self.client_data.as_str().as_bytes().len()) && is_encodable_len(
            self.signature.len(),
        ) && is_encodable_len(self.authenticator_data.len())
    }
}

/// The number that four bytes spell in big-endian order.
pub open spec fn big_endian_u32(b0: u8, b1: u8, b2: u8, b3: u8) -> int {
    b0 * 0x100_0000 + b1 * 0x1_0000 + b2 * 0x100 + b3
}

/// The four bytes of a counter in big-endian order.
pub open spec fn counter_bytes(counter: u32) -> Seq<u8> {
    seq![
        (counter / 0x100_0000) as u8,
        (counter / 0x1_0000 % 0x100) as u8,
        (counter / 0x100 % 0x100) as u8,
        (counter % 0x100) as u8,
    ]
}

/// Whether a payload is long enough to hold the presence flag and the
/// counter.
pub open spec fn well_formed_payload(raw: Seq<u8>) -> bool {
    raw.len() >= HEADER_LEN
}

/// The presence flag of a well-formed payload.
pub open spec fn payload_user_presence(raw: Seq<u8>) -> u8
    recommends
        well_formed_payload(raw),
{
    raw[0]
}

/// The counter of a well-formed payload.
pub open spec fn payload_counter(raw: Seq<u8>) -> int
    recommends
        well_formed_payload(raw),
{
    big_endian_u32(raw[1], raw[2], raw[3], raw[4])
}

/// The signature of a well-formed payload: all that follows the counter.
pub open spec fn payload_signature(raw: Seq<u8>) -> Seq<u8>
    recommends
        well_formed_payload(raw),
{
    raw.skip(HEADER_LEN as int)
}

/// The canonical authenticator data: the application digest, the presence
/// flag and the counter in big-endian order. The signature is no part of it.
pub open spec fn authenticator_data_of(application_digest: Seq<u8>, user_presence: u8, counter: u32) -> Seq<
    u8,
> {
    application_digest + seq![user_presence] + counter_bytes(counter)
}

/// Splits a raw signature payload into its fields. Fails with
/// `MalformedSignaturePayload` exactly where the payload has fewer than five
/// bytes.
pub fn parse_assertion(raw: &[u8]) -> (r: Result<ParsedAssertion, SignError>)
    ensures
        r is Ok <==> well_formed_payload(raw@),
        r matches Ok(parsed) ==> {
            &&& parsed.user_presence == payload_user_presence(raw@)
            &&& parsed.counter == payload_counter(raw@)
            &&& parsed.signature@ == payload_signature(raw@)
        },
        r matches Err(e) ==> e == SignError::MalformedSignaturePayload,
{
    if raw.len() < HEADER_LEN {
        return Err(SignError::MalformedSignaturePayload);
    }
    let user_presence = raw[0];
    let counter: u32 = (raw[1] as u32) * 0x100_0000 + (raw[2] as u32) * 0x1_0000 + (raw[3] as u32)
        * 0x100 + (raw[4] as u32);
    let mut signature: Vec<u8> = Vec::new();
    let mut i: usize = HEADER_LEN;
    while i < raw.len()
        invariant
            HEADER_LEN <= i <= raw.len(),
            signature@ == raw@.subrange(HEADER_LEN as int, i as int),
        decreases raw.len() - i,
    {
        signature.push(raw[i]);
        assert(signature@ =~= raw@.subrange(HEADER_LEN as int, i + 1));
        i = i + 1;
    }
    assert(signature@ =~= raw@.skip(HEADER_LEN as int));
    Ok(ParsedAssertion { user_presence, counter, signature })
}

/// Rebuilds the canonical authenticator data.
pub fn authenticator_data(application_digest: &[u8], user_presence: u8, counter: u32) -> (data: Vec<u8>)
    ensures
        data@ == authenticator_data_of(application_digest@, user_presence, counter),
{
    let mut data: Vec<u8> = Vec::new();
    let mut i: usize = 0;
    while i < application_digest.len()
        invariant
            i <= application_digest.len(),
            data@ == application_digest@.take(i as int),
        decreases application_digest.len() - i,
    {
        data.push(application_digest[i]);
        assert(data@ =~= application_digest@.take(i + 1));
        i = i + 1;
    }
    assert(application_digest@.take(application_digest.len() as int) =~= application_digest@);
    data.push(user_presence);
    data.push((counter / 0x100_0000) as u8);
    data.push((counter / 0x1_0000 % 0x100) as u8);
    data.push((counter / 0x100 % 0x100) as u8);
    data.push((counter % 0x100) as u8);
    assert(data@ =~= authenticator_data_of(application_digest@, user_presence, counter));
    data
}

/// The counter is carried over as it is: its bytes in the authenticator
/// data are the four counter bytes of the payload.
pub proof fn lemma_counter_bytes_round_trip(b0: u8, b1: u8, b2: u8, b3: u8)
    ensures
        0 <= big_endian_u32(b0, b1, b2, b3) <= u32::MAX,
        counter_bytes(big_endian_u32(b0, b1, b2, b3) as u32) == seq![b0, b1, b2, b3],
{
    let n = big_endian_u32(b0, b1, b2, b3);
    let top = b0 as int;
    let upper = b0 * 0x100 + b1;
    let middle = upper * 0x100 + b2;
    lemma_fundamental_div_mod_converse(n, 0x100_0000, top, b1 * 0x1_0000 + b2 * 0x100 + b3);
    lemma_fundamental_div_mod_converse(n, 0x1_0000, upper, b2 * 0x100 + b3);
    lemma_fundamental_div_mod_converse(upper, 0x100, top, b1 as int);
    lemma_fundamental_div_mod_converse(n, 0x100, middle, b3 as int);
    lemma_fundamental_div_mod_converse(middle, 0x100, upper, b2 as int);
    assert(counter_bytes(n as u32) =~= seq![b0, b1, b2, b3]);
}

/// Reading the four big-endian bytes of a counter gives back the counter.
pub proof fn lemma_big_endian_of_counter_bytes(counter: u32)
    ensures
        big_endian_u32(
            counter_bytes(counter)[0],
            counter_bytes(counter)[1],
            counter_bytes(counter)[2],
            counter_bytes(counter)[3],
        ) == counter,
{
}

/// The authenticator data of a parsed payload is the application digest
/// followed by the first five bytes of the payload, unchanged.
pub proof fn lemma_authenticator_data_keeps_header(application_digest: Seq<u8>, raw: Seq<u8>)
    requires
        well_formed_payload(raw),
    ensures
        authenticator_data_of(
            application_digest,
            payload_user_presence(raw),
            payload_counter(raw) as u32,
        ) == application_digest + raw.take(HEADER_LEN as int),
        authenticator_data_of(
            application_digest,
            payload_user_presence(raw),
            payload_counter(raw) as u32,
        ).len() == application_digest.len() + HEADER_LEN,
{
    lemma_counter_bytes_round_trip(raw[1], raw[2], raw[3], raw[4]);
    assert(seq![raw[0]] + seq![raw[1], raw[2], raw[3], raw[4]] =~= raw.take(HEADER_LEN as int));
    assert(authenticator_data_of(
        application_digest,
        payload_user_presence(raw),
        payload_counter(raw) as u32,
    ) =~= application_digest + raw.take(HEADER_LEN as int));
}

} // verus!
