//! Signing keys and key identifiers.
//!
//! A signing key is the 32 big-endian bytes of a P-256 scalar. The curve
//! arithmetic is that of the `p256` crate, which the functions at the end of
//! this module call.

use vstd::prelude::*;

use p256::ecdsa::signature::Signer;

verus! {

/// The number that `b` writes, most significant byte first.
pub open spec fn big_endian(b: Seq<u8>) -> nat
    decreases b.len(),
{
    if b.len() == 0 {
        0
    } else {
        256 * big_endian(b.drop_last()) + b.last() as nat
    }
}

/// The order of the curve P-256.
pub open spec fn curve_order() -> int {
    0xffffffff00000000ffffffffffffffffbce6faada7179e84f3b9cac2fc632551int
}

/// Whether `b` is a secret scalar: 32 bytes of a number between 1 and the
/// order of the curve, exclusive.
pub open spec fn valid_secret(b: Seq<u8>) -> bool {
    b.len() == 32 && 0 < big_endian(b) < curve_order()
}

/// The public key of `secret` as an uncompressed SEC1 point, as
/// `VerifyingKey::to_encoded_point` of `p256` computes it.
pub uninterp spec fn public_point(secret: Seq<u8>) -> Seq<u8>;

/// The ES256 signature of `message` under `secret`, as `SigningKey::try_sign`
/// of `p256` computes it, deterministically after RFC 6979. `None` where it
/// finds no signature.
pub uninterp spec fn es256_signature(secret: Seq<u8>, message: Seq<u8>) -> Option<Seq<u8>>;

/// A P-256 signing key.
pub struct SigningKey {
    secret: Vec<u8>,
}

impl View for SigningKey {
    type V = Seq<u8>;

    /// The bytes of the secret scalar.
    closed spec fn view(&self) -> Seq<u8> {
        self.secret@
    }
}

impl SigningKey {
    #[verifier::type_invariant]
    spec fn is_valid(self) -> bool {
        valid_secret(self.secret@)
    }

    /// A fresh key from the random source of the operating system.
    pub fn random() -> (res: SigningKey)
        ensures
            valid_secret(res@),
            was_drawn(res@),
    {
        SigningKey { secret: random_secret() }
    }

    /// The public key, as an uncompressed SEC1 point: the byte 4 and the two
    /// coordinates of 32 bytes each.
    pub fn encoded_point(&self) -> (res: Vec<u8>)
        ensures
            res@ == public_point(self@),
            res@.len() == 65,
            res@[0] == 4,
    {
        proof {
            use_type_invariant(self);
        }
        public_point_of(&self.secret)
    }

    /// The ES256 signature of `message`.
    pub fn sign(&self, message: &[u8]) -> (res: Option<Vec<u8>>)
        ensures
            match res {
                Some(sig) => es256_signature(self@, message@) == Some(sig@) && sig@.len() == 64,
                None => es256_signature(self@, message@) is None,
            },
    {
        proof {
            use_type_invariant(self);
        }
        es256_sign(&self.secret, message)
    }
}

impl Clone for SigningKey {
    fn clone(&self) -> (res: SigningKey)
        ensures
            res@ == self@,
    {
        proof {
            use_type_invariant(self);
        }
        let secret = self.secret.clone();
        assert(secret@ =~= self.secret@);
        SigningKey { secret }
    }
}

/// Whether the secret was drawn from the random source.
pub closed spec fn was_drawn(secret: Seq<u8>) -> bool {
    exists|drawn: Vec<u8>| #[trigger] call_ensures(random_secret, (), drawn) && drawn@ == secret
}

/// Whether the identifier was drawn at random.
pub closed spec fn id_was_drawn(id: Seq<char>) -> bool {
    exists|drawn: String| #[trigger] call_ensures(random_key_id, (), drawn) && drawn@ == id
}

/// An identifier that is drawn at random.
pub fn fresh_key_id() -> (res: String)
    ensures
        is_uuid_v4(res@),
        id_was_drawn(res@),
{
    random_key_id()
}

pub open spec fn is_lower_hex(c: char) -> bool {
    '0' <= c <= '9' || 'a' <= c <= 'f'
}

/// Whether `s` is a random (version 4) UUID in its hyphenated lower-case form.
pub open spec fn is_uuid_v4(s: Seq<char>) -> bool {
    &&& s.len() == 36
    &&& forall|i: int|
        0 <= i < 36 ==> if i == 8 || i == 13 || i == 18 || i == 23 {
            #[trigger] s[i] == '-'
        } else {
            is_lower_hex(s[i])
        }
    &&& s[14] == '4'
    &&& s[19] == '8' || s[19] == '9' || s[19] == 'a' || s[19] == 'b'
}

/// `p256::ecdsa::SigningKey::random` with the operating system's random
/// source, and the bytes of the key by `SigningKey::to_bytes`. The contract
/// says what a signing key of `p256` always is, a scalar that is not zero and
/// below the order of the curve. The call panics where the operating system
/// has no random source.
#[verifier::external_body]
fn random_secret() -> (res: Vec<u8>)
    ensures
        valid_secret(res@),
{
    p256::ecdsa::SigningKey::random(&mut rand_core::OsRng).to_bytes().to_vec()
}

/// `VerifyingKey::to_encoded_point(false)` of the key with the given bytes.
/// `SigningKey::from_slice` accepts those bytes because they are a valid
/// scalar. Beside the name of the result the contract says that the point is
/// uncompressed, since the public key of such a scalar is not the identity.
#[verifier::external_body]
fn public_point_of(secret: &Vec<u8>) -> (res: Vec<u8>)
    requires
        valid_secret(secret@),
    ensures
        res@ == public_point(secret@),
        res@.len() == 65,
        res@[0] == 4,
{
    let key = p256::ecdsa::SigningKey::from_slice(secret).unwrap();
    key.verifying_key().to_encoded_point(false).as_bytes().to_vec()
}

/// `Signer::try_sign` of the key with the given bytes, and the signature's
/// 64 bytes by `Signature::to_bytes`. `SigningKey::from_slice` accepts the
/// bytes of the key because they are a valid scalar.
#[verifier::external_body]
fn es256_sign(secret: &Vec<u8>, message: &[u8]) -> (res: Option<Vec<u8>>)
    requires
        valid_secret(secret@),
    ensures
        match res {
            Some(sig) => es256_signature(secret@, message@) == Some(sig@) && sig@.len() == 64,
            None => es256_signature(secret@, message@) is None,
        },
{
    let key = p256::ecdsa::SigningKey::from_slice(secret).unwrap();
    let signed: Result<p256::ecdsa::Signature, p256::ecdsa::Error> = key.try_sign(message);
    match signed {
        Ok(sig) => Some(sig.to_bytes().to_vec()),
        Err(_) => None,
    }
}

/// `uuid::Uuid::new_v4` in its `Display` form. The identifier is random; the
/// contract says of it what holds of every version 4 UUID.
#[verifier::external_body]
fn random_key_id() -> (res: String)
    ensures
        is_uuid_v4(res@),
{
    uuid::Uuid::new_v4().to_string()
}

} // verus!
