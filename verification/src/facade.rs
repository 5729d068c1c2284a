//! Reply decoding for the remote-object facades: the bus layer hands this
//! module the raw payloads it read (byte arrays, word-triple arrays), and the
//! functions here turn them into typed values or decode failures.

use vstd::prelude::*;
use vstd::utf8::{valid_utf8, decode_utf8};
use crate::error::NetworkError;
use crate::ipv4::Ipv4Address;
use crate::ipv4::spec_decode_words;

verus! {

/// Relies on core::str::from_utf8: it returns Ok exactly when the bytes are a
/// valid UTF-8 encoding, and the returned text is their decoding.
#[verifier::external_body]
fn bytes_to_str(v: &[u8]) -> (r: Option<&str>)
    ensures
        match r {
            Some(s) => valid_utf8(v@) && s@ == decode_utf8(v@),
            None => !valid_utf8(v@),
        },
{
    core::str::from_utf8(v).ok()
}

/// Decodes a raw SSID payload as UTF-8 text.  A non-UTF-8 payload is a text
/// decode failure, distinct from a transport failure.
pub fn decode_ssid(bytes: &Vec<u8>) -> (r: Result<String, NetworkError>)
    ensures
        valid_utf8(bytes@) ==> (r matches Ok(s) && s@ == decode_utf8(bytes@)),
        !valid_utf8(bytes@) ==> (r matches Err(e) && e matches NetworkError::TextDecode(_)),
{
    match bytes_to_str(bytes.as_slice()) {
        Some(s) => Ok(String::from_str(s)),
        None => Err(NetworkError::TextDecode(String::from_str("ssid"))),
    }
}

/// Decodes the address list of an IPv4 configuration: one word triple per
/// entry.  Any short triple makes the whole reply a decode failure; an empty
/// list is legitimate and not a failure.
pub fn decode_addresses(replies: &Vec<Vec<u32>>) -> (r: Result<Vec<Ipv4Address>, NetworkError>)
    ensures
        (forall|i: int| 0 <= i < replies@.len() ==> #[trigger] replies@[i]@.len() >= 3) ==> (
        r matches Ok(v) && v@.len() == replies@.len() && (forall|i: int|
            0 <= i < replies@.len() ==> #[trigger] v@[i] == spec_decode_words(replies@[i]@))),
        (exists|i: int| 0 <= i < replies@.len() && #[trigger] replies@[i]@.len() < 3) ==> (
        r matches Err(e) && e matches NetworkError::ReplyShape(_)),
{
    let mut out: Vec<Ipv4Address> = Vec::new();
    let mut i: usize = 0;
    while i < replies.len()
        invariant
            i <= replies@.len(),
            out@.len() == i,
            forall|j: int| 0 <= j < i as int ==> #[trigger] replies@[j]@.len() >= 3,
            forall|j: int| 0 <= j < i as int ==> #[trigger] out@[j] == spec_decode_words(
                replies@[j]@,
            ),
        decreases replies@.len() - i,
    {
        match Ipv4Address::from_words(&replies[i]) {
            Ok(a) => {
                out.push(a);
            },
            Err(e) => {
                return Err(e);
            },
        }
        i += 1;
    }
    Ok(out)
}

} // verus!
