use vstd::prelude::*;
use crate::hexcode::hex_decode;
use crate::hexcode::hex_decode_spec;

verus! {

/// The outcome of signature verification: either the request is authentic or
/// it is treated as forged. There is no third state; every failure (bad
/// transport encoding, wrong length, cryptographic mismatch) is `Forged`.
#[derive(PartialEq, Eq, Structural, Clone, Copy, Debug)]
pub enum Verdict {
    Authentic,
    Forged,
}

/// Whether the Ed25519 signature `signature` is valid for `message` under the
/// public key `public_key` (all as raw bytes, 32-byte key, 64-byte
/// signature). The verdict is a fixed mathematical function of the three
/// byte strings; a key that is not a valid curve point validates nothing.
pub uninterp spec fn ed25519_authentic(
    public_key: Seq<u8>,
    message: Seq<u8>,
    signature: Seq<u8>,
) -> bool;

/// Relies on ed25519_dalek: `VerifyingKey::from_bytes`,
/// `Signature::from_bytes` and `Verifier::verify`. Verification is
/// deterministic in the key bytes, the message and the signature bytes; a
/// byte string that decodes to no valid key verifies no message.
#[verifier::external_body]
fn dalek_verify(public_key: &[u8], message: &[u8], signature: &[u8]) -> (r: bool)
    requires
        public_key@.len() == 32,
        signature@.len() == 64,
    ensures
        r == ed25519_authentic(public_key@, message@, signature@),
{
    let pk: &[u8; 32] = match public_key.try_into() {
        Ok(a) => a,
        Err(_) => return false,
    };
    let sg: &[u8; 64] = match signature.try_into() {
        Ok(a) => a,
        Err(_) => return false,
    };
    let key = match ed25519_dalek::VerifyingKey::from_bytes(pk) {
        Ok(k) => k,
        Err(_) => return false,
    };
    let sig = ed25519_dalek::Signature::from_bytes(sg);
    ed25519_dalek::Verifier::verify(&key, message, &sig).is_ok()
}

/// The verdict on a claimed signature: the transport-encoded key and
/// signature must decode from hexadecimal to their fixed lengths, and the
/// cryptographic check must accept. Every other path is `Forged`; nothing in
/// the verdict says which check failed.
pub open spec fn verify_spec(
    public_key_hex: Seq<u8>,
    message: Seq<u8>,
    signature_hex: Seq<u8>,
) -> Verdict {
    match hex_decode_spec(public_key_hex) {
        Some(pk) => if pk.len() == 32 {
            match hex_decode_spec(signature_hex) {
                Some(sig) => if sig.len() == 64 && ed25519_authentic(pk, message, sig) {
                    Verdict::Authentic
                } else {
                    Verdict::Forged
                },
                None => Verdict::Forged,
            }
        } else {
            Verdict::Forged
        },
        None => Verdict::Forged,
    }
}

/// Verifies a claimed signature over a canonical message. `public_key_hex`
/// and `signature_hex` are the hexadecimal transport encodings; any decode
/// failure or length mismatch yields `Forged`, never a panic.
pub fn verify(public_key_hex: &[u8], message: &[u8], signature_hex: &[u8]) -> (v: Verdict)
    ensures
        v == verify_spec(public_key_hex@, message@, signature_hex@),
{
    let pk = match hex_decode(public_key_hex) {
        Some(v) => v,
        None => {
            return Verdict::Forged;
        },
    };
    if pk.len() != 32 {
        return Verdict::Forged;
    }
    let sig = match hex_decode(signature_hex) {
        Some(v) => v,
        None => {
            return Verdict::Forged;
        },
    };
    if sig.len() != 64 {
        return Verdict::Forged;
    }
    if dalek_verify(pk.as_slice(), message, sig.as_slice()) {
        Verdict::Authentic
    } else {
        Verdict::Forged
    }
}

} // verus!
