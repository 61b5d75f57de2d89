//! The handshake performed once per connection before any typed message.
//!
//! The initiator sends a nonce of `NONCE_LEN` bytes; the acceptor answers
//! with the nonce XOR-ed with a publicly known mask repeated cyclically; the
//! initiator checks that unmasking the answer gives the nonce back. It is a
//! liveness and layout check, not authentication.

use vstd::prelude::*;
use crate::error::ConnectionError;

verus! {

/// Length of the handshake nonce in bytes.
pub const NONCE_LEN: usize = 32;

/// The byte of `mask` that lines up with position `i` of the data.
pub open spec fn cyclic_byte(mask: Seq<u8>, i: int) -> u8 {
    mask[i % (mask.len() as int)]
}

/// `data` XOR-ed position by position with `mask` repeated cyclically; an
/// empty mask yields all zero bytes.
pub open spec fn masked(data: Seq<u8>, mask: Seq<u8>) -> Seq<u8> {
    Seq::new(
        data.len(),
        |i: int|
            if mask.len() == 0 {
                0u8
            } else {
                data[i] ^ cyclic_byte(mask, i)
            },
    )
}

/// XOR every byte of `data` with the byte of `mask` at the same position,
/// the mask being repeated as often as needed. With an empty mask the result
/// is all zero bytes.
pub fn mask(data: [u8; 32], key: &[u8]) -> (r: [u8; 32])
    ensures
        r@ == masked(data@, key@),
{
    let mut result: [u8; 32] = [0u8; 32];
    if key.len() == 0 {
        assert(result@ =~= masked(data@, key@));
        return result;
    }
    let mut idx: usize = 0;
    while idx < NONCE_LEN
        invariant
            idx <= NONCE_LEN,
            key@.len() > 0,
            forall|j: int| 0 <= j < idx ==> result@[j] == data@[j] ^ cyclic_byte(key@, j),
        decreases NONCE_LEN - idx,
    {
        result[idx] = data[idx] ^ key[idx % key.len()];
        idx = idx + 1;
    }
    assert(result@ =~= masked(data@, key@));
    result
}

/// The publicly known handshake mask.
pub open spec fn handshake_mask_spec() -> Seq<u8> {
    seq![0x53u8, 0x6du8, 0x61u8, 0x72u8, 0x74u8, 0x48u8, 0x6fu8, 0x6du8]
}

/// The publicly known handshake mask, repeated cyclically over the nonce.
pub fn handshake_mask() -> (r: Vec<u8>)
    ensures
        r@ == handshake_mask_spec(),
{
    let r: Vec<u8> = vec![0x53u8, 0x6du8, 0x61u8, 0x72u8, 0x74u8, 0x48u8, 0x6fu8, 0x6du8];
    assert(r@ =~= handshake_mask_spec());
    r
}

/// Relies on `rand::random`, which draws a value from the thread-local
/// generator; nothing is promised of the value.
pub assume_specification<T>[ rand::random::<T> ]() -> (r: T)
    where
        rand::distributions::Standard: rand::distributions::Distribution<T>,
;

/// The initiator's side of the handshake: the nonce it sent, kept until the
/// answer arrives.
pub struct ClientHandshake {
    nonce: [u8; 32],
}

impl ClientHandshake {
    /// The nonce that this handshake expects to get back.
    pub closed spec fn nonce_spec(&self) -> Seq<u8> {
        self.nonce@
    }

    /// Starts a handshake with a fresh random nonce.
    pub fn start() -> (r: ClientHandshake)
        ensures
            r.nonce_spec().len() == NONCE_LEN,
    {
        let nonce: [u8; 32] = rand::random::<[u8; 32]>();
        ClientHandshake { nonce }
    }

    /// Starts a handshake with the given nonce.
    pub fn with_nonce(nonce: [u8; 32]) -> (r: ClientHandshake)
        ensures
            r.nonce_spec() == nonce@,
    {
        ClientHandshake { nonce }
    }

    /// The bytes to send to the acceptor.
    pub fn nonce(&self) -> (r: [u8; 32])
        ensures
            r@ == self.nonce_spec(),
    {
        self.nonce
    }

    /// Checks the acceptor's answer: it succeeds exactly when unmasking the
    /// answer gives the nonce back.
    pub fn finish(&self, reply: [u8; 32]) -> (r: Result<(), ConnectionError>)
        ensures
            r is Ok <==> masked(reply@, handshake_mask_spec()) == self.nonce_spec(),
            r is Err ==> r->Err_0 is BadHandshake,
    {
        let key = handshake_mask();
        let unmasked = mask(reply, key.as_slice());
        let mut idx: usize = 0;
        while idx < NONCE_LEN
            invariant
                idx <= NONCE_LEN,
                unmasked@ == masked(reply@, handshake_mask_spec()),
                forall|j: int| 0 <= j < idx ==> unmasked@[j] == self.nonce@[j],
            decreases NONCE_LEN - idx,
        {
            if unmasked[idx] != self.nonce[idx] {
                return Err(ConnectionError::BadHandshake);
            }
            idx = idx + 1;
        }
        assert(unmasked@ =~= self.nonce@);
        Ok(())
    }
}

/// The acceptor's side of the handshake: the answer to a received nonce.
pub fn server_reply(received: [u8; 32]) -> (r: [u8; 32])
    ensures
        r@ == masked(received@, handshake_mask_spec()),
{
    let key = handshake_mask();
    mask(received, key.as_slice())
}

/// Masking twice with the same non-empty mask gives the data back.
pub proof fn lemma_mask_involutive(n: Seq<u8>, k: Seq<u8>)
    requires
        k.len() > 0,
    ensures
        masked(masked(n, k), k) == n,
{
    assert forall|i: int| 0 <= i < n.len() implies #[trigger] masked(masked(n, k), k)[i]
        == n[i] by {
        let a = n[i];
        let b = cyclic_byte(k, i);
        assert((a ^ b) ^ b == a) by (bit_vector);
    }
    assert(masked(masked(n, k), k) =~= n);
}

/// An answer masked with a non-empty mask that differs, somewhere within the
/// data, from the agreed one never unmasks to the data.
pub proof fn lemma_other_mask_fails(n: Seq<u8>, k: Seq<u8>, other: Seq<u8>, i: int)
    requires
        k.len() > 0,
        other.len() > 0,
        0 <= i < n.len(),
        cyclic_byte(other, i) != cyclic_byte(k, i),
    ensures
        masked(masked(n, other), k) != n,
{
    let a = n[i];
    let b = cyclic_byte(other, i);
    let c = cyclic_byte(k, i);
    assert(b != c ==> (a ^ b) ^ c != a) by (bit_vector);
    assert(masked(masked(n, other), k)[i] != n[i]);
}

/// The handshake succeeds against an acceptor that uses the agreed mask:
/// `XOR(XOR(n, k), k) == n` for every nonce `n`.
pub proof fn lemma_handshake_symmetric(nonce: Seq<u8>)
    ensures
        masked(masked(nonce, handshake_mask_spec()), handshake_mask_spec()) == nonce,
{
    lemma_mask_involutive(nonce, handshake_mask_spec());
}

} // verus!
