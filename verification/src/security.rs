//! Signature verification and checksums for package payloads. The
//! cryptography itself is done by outside code behind two trusted wrappers;
//! the length checks, the error mapping and the hex rendering of digests
//! are verified here.

use vstd::prelude::*;

use ed25519_dalek::Verifier;
use sha2::Digest;

verus! {

/// Whether ed25519 accepts `signature` over `data` under `public_key`. Key
/// parsing and verification are deterministic, so the outcome is a function
/// of the three byte strings alone.
pub uninterp spec fn ed25519_accepts(data: Seq<u8>, signature: Seq<u8>, public_key: Seq<u8>) -> bool;

/// The SHA-256 digest of `data`: 32 bytes determined by `data` alone.
pub uninterp spec fn sha256_of(data: Seq<u8>) -> Seq<u8>;

/// Relies on ed25519_dalek::VerifyingKey::from_bytes and
/// ed25519_dalek::Verifier::verify (with ed25519_dalek::Signature::from_bytes):
/// both are deterministic in their byte inputs, and the call reports whether
/// the key parses as a curve point and the signature verifies over the data.
#[verifier::external_body]
fn dalek_verify(data: &[u8], signature: &[u8], public_key: &[u8]) -> (r: bool)
    requires
        signature@.len() == 64,
        public_key@.len() == 32,
    ensures
        r == ed25519_accepts(data@, signature@, public_key@),
{
    let key_bytes: [u8; 32] = public_key.try_into().unwrap();
    let sig_bytes: [u8; 64] = signature.try_into().unwrap();
    let key = match ed25519_dalek::VerifyingKey::from_bytes(&key_bytes) {
        Ok(k) => k,
        Err(_) => return false,
    };
    let sig = ed25519_dalek::Signature::from_bytes(&sig_bytes);
    key.verify(data, &sig).is_ok()
}

/// Relies on sha2::Sha256 through the Digest trait (new, update, finalize):
/// the digest is 32 bytes and a function of the input alone.
#[verifier::external_body]
fn sha256_digest(data: &[u8]) -> (r: Vec<u8>)
    ensures
        r@ == sha256_of(data@),
        r@.len() == 32,
{
    let mut hasher = sha2::Sha256::new();
    hasher.update(data);
    hasher.finalize().as_slice().to_vec()
}

/// Why a signature check failed.
#[derive(Debug, Clone, Copy, PartialEq, Eq, Structural)]
pub enum SignatureCheckError {
    /// The public key is not exactly 32 bytes.
    BadKeyLength,
    /// The signature is not exactly 64 bytes.
    BadSignatureLength,
    /// The key does not parse or the signature does not verify.
    RejectedSignature,
}

/// Checks an ed25519 signature over `data`: the public key must be 32 bytes
/// and the signature 64, and with well-sized inputs the outcome is exactly
/// what ed25519 decides.
pub fn verify_signature(data: &[u8], signature: &[u8], public_key: &[u8]) -> (r: Result<
    (),
    SignatureCheckError,
>)
    ensures
        public_key@.len() != 32 ==> r == Err::<(), SignatureCheckError>(
            SignatureCheckError::BadKeyLength,
        ),
        public_key@.len() == 32 && signature@.len() != 64 ==> r == Err::<(), SignatureCheckError>(
            SignatureCheckError::BadSignatureLength,
        ),
        public_key@.len() == 32 && signature@.len() == 64 ==> (r is Ok <==> ed25519_accepts(
            data@,
            signature@,
            public_key@,
        )),
        public_key@.len() == 32 && signature@.len() == 64 && r is Err ==> r == Err::<
            (),
            SignatureCheckError,
        >(SignatureCheckError::RejectedSignature),
{
    if public_key.len() != 32 {
        return Err(SignatureCheckError::BadKeyLength);
    }
    if signature.len() != 64 {
        return Err(SignatureCheckError::BadSignatureLength);
    }
    if dalek_verify(data, signature, public_key) {
        Ok(())
    } else {
        Err(SignatureCheckError::RejectedSignature)
    }
}

/// The lower-case hex digit of the value `d` (`0 <= d < 16`).
pub open spec fn spec_hex_digit(d: u8) -> char {
    if d == 0 {
        '0'
    } else if d == 1 {
        '1'
    } else if d == 2 {
        '2'
    } else if d == 3 {
        '3'
    } else if d == 4 {
        '4'
    } else if d == 5 {
        '5'
    } else if d == 6 {
        '6'
    } else if d == 7 {
        '7'
    } else if d == 8 {
        '8'
    } else if d == 9 {
        '9'
    } else if d == 10 {
        'a'
    } else if d == 11 {
        'b'
    } else if d == 12 {
        'c'
    } else if d == 13 {
        'd'
    } else if d == 14 {
        'e'
    } else {
        'f'
    }
}

/// The lower-case hex rendering of `bytes`: two digits per byte, high
/// nibble first.
pub open spec fn spec_hex_of(bytes: Seq<u8>) -> Seq<char> {
    Seq::new(
        bytes.len() * 2,
        |i: int|
            if i % 2 == 0 {
                spec_hex_digit(bytes[i / 2] >> 4)
            } else {
                spec_hex_digit(bytes[i / 2] & 0xF)
            },
    )
}

fn hex_digit_str(d: u8) -> (r: &'static str)
    requires
        d < 16,
    ensures
        r@ == seq![spec_hex_digit(d)],
{
    proof {
        reveal_strlit("0");
        reveal_strlit("1");
        reveal_strlit("2");
        reveal_strlit("3");
        reveal_strlit("4");
        reveal_strlit("5");
        reveal_strlit("6");
        reveal_strlit("7");
        reveal_strlit("8");
        reveal_strlit("9");
        reveal_strlit("a");
        reveal_strlit("b");
        reveal_strlit("c");
        reveal_strlit("d");
        reveal_strlit("e");
        reveal_strlit("f");
    }
    let r: &'static str = if d == 0 {
        "0"
    } else if d == 1 {
        "1"
    } else if d == 2 {
        "2"
    } else if d == 3 {
        "3"
    } else if d == 4 {
        "4"
    } else if d == 5 {
        "5"
    } else if d == 6 {
        "6"
    } else if d == 7 {
        "7"
    } else if d == 8 {
        "8"
    } else if d == 9 {
        "9"
    } else if d == 10 {
        "a"
    } else if d == 11 {
        "b"
    } else if d == 12 {
        "c"
    } else if d == 13 {
        "d"
    } else if d == 14 {
        "e"
    } else {
        "f"
    };
    proof {
        assert(r@ =~= seq![spec_hex_digit(d)]);
    }
    r
}

/// The SHA-256 checksum of `data`, rendered as 64 lower-case hex digits.
#[verifier::loop_isolation(false)]
pub fn compute_checksum(data: &[u8]) -> (r: String)
    ensures
        r@ == spec_hex_of(sha256_of(data@)),
        r@.len() == 64,
{
    let digest = sha256_digest(data);
    let n = digest.len();
    let mut out = String::new();
    let mut i: usize = 0;
    while i < n
        invariant
            i <= n,
            out@ == spec_hex_of(digest@).subrange(0, 2 * i as int),
        decreases n - i,
    {
        let b = digest[i];
        assert(b >> 4 < 16) by (bit_vector);
        assert(b & 0xF < 16) by (bit_vector);
        out.append(hex_digit_str(b >> 4));
        out.append(hex_digit_str(b & 0xF));
        proof {
            assert(out@ =~= spec_hex_of(digest@).subrange(0, 2 * (i + 1) as int));
        }
        i += 1;
    }
    proof {
        assert(out@ =~= spec_hex_of(digest@));
        assert(spec_hex_of(digest@) =~= spec_hex_of(sha256_of(data@)));
    }
    out
}

} // verus!
