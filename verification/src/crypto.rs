use vstd::prelude::*;
use hmac::Mac;

verus! {

/// What `base64::decode` yields for a text: the decoded bytes under
/// standard, padded base64, or nothing when the text is not valid base64.
pub uninterp spec fn base64_decode_of(s: Seq<char>) -> Option<Seq<u8>>;

/// What HMAC-SHA1 yields for a key and a message: its 20-byte keyed digest.
pub uninterp spec fn hmac_sha1_of(key: Seq<u8>, msg: Seq<u8>) -> Seq<u8>;

/// Relies on `base64::decode`: it decodes the standard, padded base64
/// alphabet, returns `Ok` exactly on valid input, and its result depends on
/// the input text alone.
#[verifier::external_body]
pub(crate) fn base64_decode(s: &str) -> (r: Option<Vec<u8>>)
    ensures
        match r {
            Some(v) => base64_decode_of(s@) == Some(v@),
            None => base64_decode_of(s@) is None,
        },
{
    match base64::decode(s) {
        Ok(v) => Some(v),
        Err(_) => None,
    }
}

/// Relies on `hmac::Hmac` over `sha1::Sha1`: the digest is 20 bytes, a
/// function of the key and the message alone, and key setup accepts a key of
/// any length (`new_from_slice` never fails for HMAC).
#[verifier::external_body]
pub(crate) fn hmac_sha1(key: &[u8], msg: &[u8]) -> (r: Vec<u8>)
    ensures
        r@ == hmac_sha1_of(key@, msg@),
        r@.len() == 20,
{
    let mut mac = <hmac::Hmac<sha1::Sha1> as Mac>::new_from_slice(key)
        .expect("HMAC accepts a key of any length");
    mac.update(msg);
    mac.finalize().into_bytes().to_vec()
}

} // verus!
