//! The login signature: HMAC-SHA256 over the timestamped login payload, in
//! lowercase hexadecimal.

use vstd::prelude::*;

verus! {

/// The HMAC-SHA256 code of `input` under `key`.
pub uninterp spec fn hmac_sha256(input: Seq<u8>, key: Seq<u8>) -> Seq<u8>;

/// The ASCII digit for a value below ten.
pub open spec fn digit(d: nat) -> u8 {
    (48 + d) as u8
}

/// The decimal numeral of `n`, in ASCII, without leading zeros.
pub open spec fn decimal(n: nat) -> Seq<u8>
    decreases n,
{
    if n < 10 {
        seq![digit(n)]
    } else {
        decimal(n / 10).push(digit(n % 10))
    }
}

/// The ASCII bytes of `websocket_login`.
pub open spec fn login_suffix() -> Seq<u8> {
    seq![119u8, 101u8, 98u8, 115u8, 111u8, 99u8, 107u8, 101u8, 116u8, 95u8, 108u8, 111u8, 103u8, 105u8, 110u8]
}

/// The bytes that are signed at login: the timestamp's decimal numeral,
/// then `websocket_login`.
pub open spec fn login_payload(timestamp_ms: nat) -> Seq<u8> {
    decimal(timestamp_ms) + login_suffix()
}

/// The lowercase hexadecimal character of a value below sixteen.
pub open spec fn hex_char(v: nat) -> char {
    if v < 10 {
        (48 + v) as u8 as char
    } else {
        (87 + v) as u8 as char
    }
}

/// Two lowercase hexadecimal characters per byte, high half first.
pub open spec fn hex_lower(data: Seq<u8>) -> Seq<char> {
    Seq::new(
        2 * data.len(),
        |i: int|
            if i % 2 == 0 {
                hex_char((data[i / 2] / 16) as nat)
            } else {
                hex_char((data[i / 2] % 16) as nat)
            },
    )
}

/// The login signature of `timestamp_ms` under `secret`.
pub open spec fn signature(secret: Seq<u8>, timestamp_ms: nat) -> Seq<char> {
    hex_lower(hmac_sha256(login_payload(timestamp_ms), secret))
}

/// Calls `hmac_sha256::HMAC::mac`. Not proved: that the result is the code
/// that `hmac_sha256` names, which depends on the input and the key alone,
/// and that it is 32 bytes long.
#[verifier::external_body]
fn mac(input: &[u8], key: &[u8]) -> (code: Vec<u8>)
    ensures
        code@ == hmac_sha256(input@, key@),
        code@.len() == 32,
{
    hmac_sha256::HMAC::mac(input, key).to_vec()
}

/// Calls `hex::encode`. Not proved: that every byte becomes its two
/// lowercase hexadecimal digits, high half first, in the order of the bytes.
#[verifier::external_body]
fn encode_hex(data: &[u8]) -> (text: String)
    ensures
        text@ == hex_lower(data@),
{
    hex::encode(data)
}

fn push_decimal(out: &mut Vec<u8>, n: u128)
    ensures
        final(out)@ == old(out)@ + decimal(n as nat),
    decreases n,
{
    if n >= 10 {
        push_decimal(out, n / 10);
    }
    let d: u8 = (n % 10) as u8;
    out.push(48 + d);
    assert(final(out)@ =~= old(out)@ + decimal(n as nat));
}

/// Renders the bytes that are signed at login.
pub fn payload(timestamp_ms: u128) -> (out: Vec<u8>)
    ensures
        out@ == login_payload(timestamp_ms as nat),
{
    let mut out: Vec<u8> = Vec::new();
    push_decimal(&mut out, timestamp_ms);
    let suffix: [u8; 15] = [119, 101, 98, 115, 111, 99, 107, 101, 116, 95, 108, 111, 103, 105, 110];
    let mut i: usize = 0;
    while i < 15
        invariant
            i <= 15,
            suffix@ == login_suffix(),
            out@ == decimal(timestamp_ms as nat) + login_suffix().take(i as int),
        decreases 15 - i,
    {
        out.push(suffix[i]);
        i += 1;
        assert(out@ =~= decimal(timestamp_ms as nat) + login_suffix().take(i as int));
    }
    assert(login_suffix().take(15) =~= login_suffix());
    out
}

/// Signs a login at `timestamp_ms` with `secret`.
pub fn sign(secret: &str, timestamp_ms: u128) -> (signature: String)
    ensures
        signature@ == self::signature(vstd::utf8::encode_utf8(secret@), timestamp_ms as nat),
        signature@.len() == 64,
{
    let message = payload(timestamp_ms);
    let code = mac(message.as_slice(), secret.as_bytes());
    encode_hex(code.as_slice())
}

} // verus!
