use ftx::signer::login_signing_string;
use ftx::signer::rest_signing_string;
use ftx::signer::sign;

#[test]
fn test_sign_known_vector() {
    // HMAC-SHA256 test vector from RFC 4231, case 2.
    let s = sign("Jefe", "what do ya want for nothing?");
    assert_eq!(
        s,
        "5bdcc146bf60754e6a042426089575c75a003f089d2739839dec58b964ec3843"
    );
}

#[test]
fn test_sign_deterministic() {
    let a = sign("secret-key", "1588591856950GET/api/positions{}");
    let b = sign("secret-key", "1588591856950GET/api/positions{}");
    assert_eq!(a, b);
}

#[test]
fn test_sign_avalanche() {
    let base = sign("secret-key", "1588591856950GET/api/positions{}");
    // Changing any single byte of the message or the secret changes the
    // signature.
    let variants = [
        sign("secret-key", "1588591856951GET/api/positions{}"),
        sign("secret-key", "1588591856950GET/api/positions{]"),
        sign("secret-key", "2588591856950GET/api/positions{}"),
        sign("secret-kez", "1588591856950GET/api/positions{}"),
        sign("Secret-key", "1588591856950GET/api/positions{}"),
    ];
    for v in variants.iter() {
        assert_ne!(&base, v);
    }
}

#[test]
fn test_sign_empty_credentials() {
    // Empty key and message still yield the well-defined HMAC value.
    let s = sign("", "");
    assert_eq!(
        s,
        "b613679a0814d9ec772f95d778c35fc5ff1697c493715653c6c712144292c5ad"
    );
}

#[test]
fn test_rest_signing_string_concatenation() {
    let s = rest_signing_string(1588591856950, "GET", "/positions", "{}");
    assert_eq!(s, "1588591856950GET/api/positions{}");
}

#[test]
fn test_rest_signature_exact() {
    let payload = rest_signing_string(1588591856950, "GET", "/positions", "{}");
    let s = sign("secret-key", payload.as_str());
    assert_eq!(
        s,
        "9c2fa3c333370101786a59dbe1a2b826438ad96556314d1ebab8e4978f50f037"
    );
}

#[test]
fn test_login_signing_string() {
    let s = login_signing_string(1588591856950);
    assert_eq!(s, "1588591856950websocket_login");
}
