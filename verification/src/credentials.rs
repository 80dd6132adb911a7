//! Decoding of the credential identifiers a caller supplies.

use crate::encoding::base64_url_decoding;
use crate::encoding::decode_url_safe_no_pad;
use crate::views::byte_strings;
use crate::views::texts;
use vstd::prelude::*;

verus! {

/// The credential that an identifier names: its decoded bytes, where the
/// identifier is URL-safe base64 without padding and does not decode to
/// nothing.
pub open spec fn usable_credential(id: Seq<char>) -> Option<Seq<u8>> {
    match base64_url_decoding(id) {
        Some(bytes) => if bytes.len() > 0 { Some(bytes) } else { None },
        None => None,
    }
}

/// The candidate set for a list of identifiers: the credentials of those that
/// name one, in the order in which they were given.
pub open spec fn decoded_credentials(ids: Seq<Seq<char>>) -> Seq<Seq<u8>> {
    ids.filter_map(|id: Seq<char>| usable_credential(id))
}

/// Decodes one identifier. `None` means the identifier is dropped.
pub fn decode_credential_id(id: &str) -> (credential: Option<Vec<u8>>)
    ensures
        credential is Some <==> usable_credential(id@) is Some,
        credential matches Some(bytes) ==> usable_credential(id@) == Some(bytes@),
{
    match decode_url_safe_no_pad(id) {
        Ok(bytes) => {
            if bytes.len() > 0 {
                Some(bytes)
            } else {
                None
            }
        },
        Err(_) => None,
    }
}

/// Decodes the identifiers and keeps those that name a credential. An
/// identifier that is malformed or empty is no error: it is left out.
pub fn decode_credential_ids(ids: &Vec<String>) -> (credentials: Vec<Vec<u8>>)
    ensures
        byte_strings(credentials@) == decoded_credentials(texts(ids@)),
{
    let mut credentials: Vec<Vec<u8>> = Vec::new();
    let mut i: usize = 0;
    while i < ids.len()
        invariant
            i <= ids.len(),
            byte_strings(credentials@) == decoded_credentials(texts(ids@).take(i as int)),
        decreases ids.len() - i,
    {
        let ghost before = byte_strings(credentials@);
        let decoded = decode_credential_id(ids[i].as_str());
        proof {
            let all = texts(ids@);
            assert(all.take(i + 1).drop_last() =~= all.take(i as int));
            assert(all.take(i + 1).last() == ids[i as int]@);
        }
        match decoded {
            Some(bytes) => {
                credentials.push(bytes);
                assert(byte_strings(credentials@) =~= before + seq![bytes@]);
            },
            None => {},
        }
        i = i + 1;
    }
    assert(texts(ids@).take(ids.len() as int) =~= texts(ids@));
    credentials
}

} // verus!
