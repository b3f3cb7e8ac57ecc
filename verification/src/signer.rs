//! Request signing: HMAC-SHA256 over a signing string, hex-encoded.
//! The two signing-string templates — one for REST calls, one for the
//! socket login — are built and specified here as well.

use vstd::prelude::*;

use crate::numfmt::dec_int;
use crate::numfmt::i64_to_dec;
use crate::strutil::hex_digit_char;
use crate::strutil::hex_digit_char_exec;
use crate::strutil::push_char;

verus! {

/// The HMAC-SHA256 tag of a message under a key, both taken as text.
/// What the tag is on given inputs is left to the cryptographic library.
pub uninterp spec fn hmac_sha256(key: Seq<char>, msg: Seq<char>) -> Seq<u8>;

/// The lowercase hexadecimal rendering of a byte string, two digits per
/// byte, high nibble first.
pub open spec fn hex_of(bytes: Seq<u8>) -> Seq<char>
    decreases bytes.len(),
{
    if bytes.len() == 0 {
        Seq::empty()
    } else {
        seq![
            hex_digit_char(bytes[0] as int / 16),
            hex_digit_char(bytes[0] as int % 16),
        ].add(hex_of(bytes.drop_first()))
    }
}

/// Relies on `ring::hmac::Key::new` and `ring::hmac::sign` with the
/// HMAC-SHA256 algorithm: the tag is a function of key and message alone,
/// and is 32 bytes long (the SHA-256 output length).
#[verifier::external_body]
fn hmac_sha256_tag(key: &str, msg: &str) -> (r: Vec<u8>)
    ensures
        r@ == hmac_sha256(key@, msg@),
        r@.len() == 32,
{
    let signed_key = ring::hmac::Key::new(ring::hmac::HMAC_SHA256, key.as_bytes());
    ring::hmac::sign(&signed_key, msg.as_bytes()).as_ref().to_vec()
}

pub proof fn lemma_hex_of_push(s: Seq<u8>, b: u8)
    ensures
        hex_of(s.push(b)) == hex_of(s).add(
            seq![hex_digit_char(b as int / 16), hex_digit_char(b as int % 16)],
        ),
    decreases s.len(),
{
    if s.len() == 0 {
        assert(s.push(b)[0] == b);
        assert(s.push(b).drop_first() =~= Seq::<u8>::empty());
        assert(hex_of(Seq::<u8>::empty()) == Seq::<char>::empty());
        assert(hex_of(s.push(b)) =~= hex_of(s).add(
            seq![hex_digit_char(b as int / 16), hex_digit_char(b as int % 16)],
        ));
    } else {
        assert(s.push(b)[0] == s[0]);
        assert(s.push(b).drop_first() =~= s.drop_first().push(b));
        lemma_hex_of_push(s.drop_first(), b);
        assert(hex_of(s.push(b)) =~= hex_of(s).add(
            seq![hex_digit_char(b as int / 16), hex_digit_char(b as int % 16)],
        ));
    }
}

/// Renders a byte string as lowercase hexadecimal.
fn hex_encode(bytes: &Vec<u8>) -> (r: String)
    ensures
        r@ == hex_of(bytes@),
{
    let mut out = String::new();
    let mut i: usize = 0;
    while i < bytes.len()
        invariant
            i <= bytes@.len(),
            out@ == hex_of(bytes@.subrange(0, i as int)),
        decreases bytes@.len() - i,
    {
        let b = bytes[i];
        proof {
            assert(bytes@.subrange(0, i + 1) =~= bytes@.subrange(0, i as int).push(b));
            lemma_hex_of_push(bytes@.subrange(0, i as int), b);
        }
        push_char(&mut out, hex_digit_char_exec(b / 16));
        push_char(&mut out, hex_digit_char_exec(b % 16));
        proof {
            assert(out@ =~= hex_of(bytes@.subrange(0, i + 1)));
        }
        i = i + 1;
    }
    proof {
        assert(bytes@.subrange(0, bytes@.len() as int) =~= bytes@);
    }
    out
}

/// Computes the authentication signature: the hex-encoded HMAC-SHA256 tag
/// of `message` under `secret_key`. Deterministic; an empty secret key is
/// accepted and simply yields the signature under the empty key.
pub fn sign(secret_key: &str, message: &str) -> (r: String)
    ensures
        r@ == hex_of(hmac_sha256(secret_key@, message@)),
{
    let tag = hmac_sha256_tag(secret_key, message);
    hex_encode(&tag)
}

/// Law: signing is deterministic — equal keys and messages give equal
/// signatures.
pub proof fn lemma_sign_deterministic(
    key1: Seq<char>,
    msg1: Seq<char>,
    key2: Seq<char>,
    msg2: Seq<char>,
)
    requires
        key1 == key2,
        msg1 == msg2,
    ensures
        hex_of(hmac_sha256(key1, msg1)) == hex_of(hmac_sha256(key2, msg2)),
{
}

/// The signing string of a REST request: the millisecond timestamp, the
/// HTTP method, the literal `/api` prefix, the path, and the body, in that
/// order with nothing between them.
pub open spec fn rest_signing_string_spec(
    ts: int,
    method: Seq<char>,
    path: Seq<char>,
    body: Seq<char>,
) -> Seq<char> {
    dec_int(ts).add(method).add("/api"@).add(path).add(body)
}

/// Builds the REST signing string for a request at timestamp `ts`.
pub fn rest_signing_string(ts: i64, method: &str, path: &str, body: &str) -> (r: String)
    ensures
        r@ == rest_signing_string_spec(ts as int, method@, path@, body@),
{
    let mut s = i64_to_dec(ts);
    s.append(method);
    s.append("/api");
    s.append(path);
    s.append(body);
    s
}

/// The signing string of a socket login: the millisecond timestamp followed
/// by the literal `websocket_login`.
pub open spec fn login_signing_string_spec(ts: int) -> Seq<char> {
    dec_int(ts).add("websocket_login"@)
}

/// Builds the login signing string for a login at timestamp `ts`.
pub fn login_signing_string(ts: i64) -> (r: String)
    ensures
        r@ == login_signing_string_spec(ts as int),
{
    let mut s = i64_to_dec(ts);
    s.append("websocket_login");
    s
}

} // verus!
