pub mod alphabet;
pub mod crypto;
pub mod hotp;

use vstd::prelude::*;

verus! {

/// Why no code could be produced.
#[derive(Clone, Copy, Debug, PartialEq, Eq, Structural)]
pub enum AuthCodeError {
    /// The secret is not valid base64 text.
    InvalidSecret,
}

/// The code owed for a decoded secret key and a timestamp: HMAC-SHA1 of the
/// 30-second counter message, dynamically truncated to 31 bits and written
/// as five symbols of the 26-symbol alphabet.
pub open spec fn auth_code_of(key: Seq<u8>, time: u32) -> Seq<char> {
    alphabet::code_of(hotp::truncated_of(crypto::hmac_sha1_of(key, hotp::counter_of(time))))
}

/// Computes the five-symbol code for `secret` at the given timestamp.
///
/// The result is pinned to `auth_code_of`, a function of the secret and the
/// timestamp alone, so two calls on the same inputs always return the same
/// code.
pub fn generate_auth_code_for_time(secret: String, time: u32) -> (r: Result<
    String,
    AuthCodeError,
>)
    ensures
        r is Ok <==> crypto::base64_decode_of(secret@) is Some,
        r matches Ok(code) ==> code@ == auth_code_of(
            crypto::base64_decode_of(secret@).unwrap(),
            time,
        ),
        r matches Ok(code) ==> code@.len() == 5 && forall|i: int|
            0 <= i < 5 ==> alphabet::alphabet().contains(#[trigger] code@[i]),
        r matches Err(e) ==> e == AuthCodeError::InvalidSecret,
{
    let key = match crypto::base64_decode(secret.as_str()) {
        Some(k) => k,
        None => {
            return Err(AuthCodeError::InvalidSecret);
        },
    };
    let counter = hotp::counter_bytes(time);
    let digest = crypto::hmac_sha1(key.as_slice(), counter.as_slice());
    let value = hotp::truncate(&digest);
    proof {
        alphabet::lemma_code_wf(value);
    }
    let code = alphabet::encode(value);
    Ok(code)
}

/// Computes the five-symbol code for `secret` at the current wall-clock
/// time: whatever second the clock reported, the code is the one owed for
/// the secret at that second.
pub fn generate_auth_code(secret: String) -> (r: Result<String, AuthCodeError>)
    ensures
        r is Ok <==> crypto::base64_decode_of(secret@) is Some,
        r matches Ok(code) ==> exists|t: u32|
            code@ == auth_code_of(crypto::base64_decode_of(secret@).unwrap(), t),
        r matches Ok(code) ==> code@.len() == 5 && forall|i: int|
            0 <= i < 5 ==> alphabet::alphabet().contains(#[trigger] code@[i]),
        r matches Err(e) ==> e == AuthCodeError::InvalidSecret,
{
    let ghost s = secret@;
    let time = current_time();
    let r = generate_auth_code_for_time(secret, time);
    proof {
        if r is Ok {
            assert(r->Ok_0@ == auth_code_of(crypto::base64_decode_of(s).unwrap(), time));
        }
    }
    r
}

/// Relies on `std::time::SystemTime`: the wall clock, read as whole seconds
/// since the Unix epoch and truncated to 32 bits. Nothing is promised of the
/// value, which is the clock's alone; the call aborts if the clock is set
/// before the epoch.
#[verifier::external_body]
pub fn current_time() -> u32 {
    let since_epoch = std::time::SystemTime::now()
        .duration_since(std::time::UNIX_EPOCH)
        .expect("System time is set to before unix epoch");
    since_epoch.as_secs() as u32
}

/// Law: the code depends on the time only through its 30-second step. Two
/// timestamps with the same quotient by 30 yield the same code for the same
/// key; the code can change only when a 30-second boundary is crossed.
pub proof fn lemma_time_step_quantization(key: Seq<u8>, time1: u32, time2: u32)
    requires
        time1 / 30 == time2 / 30,
    ensures
        auth_code_of(key, time1) == auth_code_of(key, time2),
{
    assert(hotp::counter_of(time1) =~= hotp::counter_of(time2));
}

/// Law: every code is exactly five symbols long, each drawn from the
/// 26-symbol alphabet, for every key and every timestamp.
pub proof fn lemma_code_well_formed(key: Seq<u8>, time: u32)
    ensures
        auth_code_of(key, time).len() == 5,
        forall|i: int|
            0 <= i < 5 ==> alphabet::alphabet().contains(#[trigger] auth_code_of(key, time)[i]),
{
    alphabet::lemma_code_wf(hotp::truncated_of(crypto::hmac_sha1_of(key, hotp::counter_of(time))));
}

} // verus!
