//! Request signing: the lower-case hex of the HMAC-SHA256 of the exact
//! request body, keyed with the API secret.
use vstd::prelude::*;
use vstd::string::StringSliceAdditionalSpecFns;
use crate::json::hex_digit;

verus! {

/// The HMAC-SHA256 digest of `data` under `key`.
pub uninterp spec fn hmac_sha256_of(key: Seq<u8>, data: Seq<u8>) -> Seq<u8>;

#[verifier::external_type_specification]
#[verifier::external_body]
pub struct ExErrorStack(openssl::error::ErrorStack);

/// Relies on openssl: `PKey::hmac` makes the key, `Signer::new` with
/// `MessageDigest::sha256()`, `Signer::update` and `Signer::sign_to_vec`
/// compute the HMAC-SHA256 digest of `data` under it, as long as SHA-256's
/// 32-byte output. `PKey::hmac` asserts that the key length fits a C `int`.
#[verifier::external_body]
fn hmac_sha256(key: &[u8], data: &[u8]) -> (r: Result<Vec<u8>, openssl::error::ErrorStack>)
    requires
        key@.len() <= i32::MAX,
    ensures
        match r {
            Ok(d) => d@ == hmac_sha256_of(key@, data@) && d@.len() == 32,
            Err(_) => true,
        },
{
    let key = openssl::pkey::PKey::hmac(key)?;
    let mut signer = openssl::sign::Signer::new(openssl::hash::MessageDigest::sha256(), &key)?;
    signer.update(data)?;
    signer.sign_to_vec()
}

/// Two lower-case hex digits per byte, high nibble first, no separators.
pub open spec fn hex_lower(b: Seq<u8>) -> Seq<char>
    decreases b.len(),
{
    if b.len() == 0 {
        Seq::empty()
    } else {
        hex_lower(b.drop_last()) + seq![hex_digit(b.last() as int / 16), hex_digit(b.last() as int % 16)]
    }
}

/// Relies on `hex::encode`, which writes each byte as two lower-case hex
/// digits, in order.
#[verifier::external_body]
fn to_hex(b: &[u8]) -> (r: String)
    ensures
        r@ == hex_lower(b@),
{
    hex::encode(b)
}

/// The signature of `payload` under `secret`.
pub open spec fn signature_of(payload: Seq<u8>, secret: Seq<u8>) -> Seq<char> {
    hex_lower(hmac_sha256_of(secret, payload))
}

/// Why signing failed: the key material was refused.
#[derive(Debug, Clone, PartialEq, Eq)]
pub struct SigningError;

/// A lower-case hex digit.
pub open spec fn is_lower_hex(c: char) -> bool {
    (48 <= c as u32 <= 57) || (97 <= c as u32 <= 102)
}

/// A secret too long to serve as a key: its length does not fit a C `int`.
pub open spec fn secret_too_long(secret: Seq<u8>) -> bool {
    secret.len() > i32::MAX
}

/// Signs `data` with `secret`: the lower-case hex HMAC-SHA256 of its bytes,
/// 64 hex digits. It fails only where the key cannot be built from `secret`;
/// a secret longer than a C `int` can count always fails, before openssl is
/// asked.
pub fn sign(data: &str, secret: &str) -> (r: Result<String, SigningError>)
    ensures
        match r {
            Ok(s) => s@ == signature_of(data.spec_bytes(), secret.spec_bytes()) && s@.len() == 64
                && forall|i: int| 0 <= i < s@.len() ==> is_lower_hex(#[trigger] s@[i]),
            Err(_) => true,
        },
        secret_too_long(secret.spec_bytes()) ==> r is Err,
{
    let key = secret.as_bytes();
    if key.len() > i32::MAX as usize {
        return Err(SigningError);
    }
    match hmac_sha256(key, data.as_bytes()) {
        Ok(d) => {
            let h = to_hex(d.as_slice());
            proof {
                lemma_hex_len(d@);
                lemma_hex_chars(d@);
            }
            Ok(h)
        },
        Err(_) => Err(SigningError),
    }
}

proof fn lemma_hex_digit(n: int, m: int)
    requires
        0 <= n < 16,
        0 <= m < 16,
        hex_digit(n) == hex_digit(m),
    ensures
        n == m,
{
}

proof fn lemma_hex_len(b: Seq<u8>)
    ensures
        hex_lower(b).len() == 2 * b.len(),
    decreases b.len(),
{
    if b.len() > 0 {
        lemma_hex_len(b.drop_last());
    }
}

proof fn lemma_hex_chars(b: Seq<u8>)
    ensures
        forall|i: int| 0 <= i < hex_lower(b).len() ==> is_lower_hex(#[trigger] hex_lower(b)[i]),
    decreases b.len(),
{
    lemma_hex_len(b);
    if b.len() > 0 {
        lemma_hex_chars(b.drop_last());
        lemma_hex_len(b.drop_last());
        let h = hex_lower(b);
        let p = hex_lower(b.drop_last());
        assert forall|i: int| 0 <= i < h.len() implies is_lower_hex(#[trigger] h[i]) by {
            if i < p.len() {
                assert(h[i] == p[i]);
            } else {
                assert(forall|n: int| 0 <= n < 16 ==> is_lower_hex(#[trigger] hex_digit(n)));
            }
        }
    }
}

/// Hex encoding loses nothing: two digests with the same hex text are equal.
pub proof fn lemma_hex_injective(a: Seq<u8>, b: Seq<u8>)
    requires
        hex_lower(a) == hex_lower(b),
    ensures
        a == b,
    decreases a.len(),
{
    lemma_hex_len(a);
    lemma_hex_len(b);
    if a.len() > 0 {
        let ha = hex_lower(a);
        let n = ha.len();
        lemma_hex_len(a.drop_last());
        lemma_hex_len(b.drop_last());
        assert(ha[n - 2] == hex_digit(a.last() as int / 16));
        assert(hex_lower(b)[n - 2] == hex_digit(b.last() as int / 16));
        assert(ha[n - 1] == hex_digit(a.last() as int % 16));
        assert(hex_lower(b)[n - 1] == hex_digit(b.last() as int % 16));
        lemma_hex_digit(a.last() as int / 16, b.last() as int / 16);
        lemma_hex_digit(a.last() as int % 16, b.last() as int % 16);
        assert(ha.subrange(0, n - 2) =~= hex_lower(a.drop_last()));
        assert(hex_lower(b).subrange(0, n - 2) =~= hex_lower(b.drop_last()));
        lemma_hex_injective(a.drop_last(), b.drop_last());
        assert(a =~= b.drop_last().push(b.last()));
    } else {
        assert(a =~= b);
    }
}

/// Signing is a function of its inputs: the same payload under the same
/// secret always gives the same signature, and two equal signatures of the
/// same secret come from payloads with equal HMAC digests.
pub proof fn lemma_signature_deterministic(p: Seq<u8>, q: Seq<u8>, secret: Seq<u8>)
    ensures
        p == q ==> signature_of(p, secret) == signature_of(q, secret),
        signature_of(p, secret) == signature_of(q, secret) ==> hmac_sha256_of(secret, p)
            == hmac_sha256_of(secret, q),
{
    if signature_of(p, secret) == signature_of(q, secret) {
        lemma_hex_injective(hmac_sha256_of(secret, p), hmac_sha256_of(secret, q));
    }
}

} // verus!
