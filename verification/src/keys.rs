//! Account identities and the program-derived authority.
//!
//! Every account in the model is named by an opaque 256-bit key, held as four
//! 64-bit words. The vault's custodial authority is not a user key: it is an
//! address derived deterministically from a fixed seed and the program's own
//! identity, together with a verification value (the bump). The derivation is
//! recomputed at every operation that authorizes as this address; it is never
//! stored.

use vstd::prelude::*;

use solana_pubkey::Pubkey;

verus! {

/// An opaque 32-byte account identity, held as four little-endian 64-bit
/// words. Keys are only ever compared for equality; nothing in the escrow
/// logic reads their structure.
#[derive(Clone, Copy, PartialEq, Eq, Structural, Debug, Hash)]
pub struct Key {
    pub w0: u64,
    pub w1: u64,
    pub w2: u64,
    pub w3: u64,
}

impl View for Key {
    type V = Seq<u64>;

    open spec fn view(&self) -> Seq<u64> {
        seq![self.w0, self.w1, self.w2, self.w3]
    }
}

impl Key {
    /// Builds a key from its four words.
    pub fn new(w0: u64, w1: u64, w2: u64, w3: u64) -> (k: Key)
        ensures
            k == (Key { w0, w1, w2, w3 }),
    {
        Key { w0, w1, w2, w3 }
    }
}

/// What `Pubkey::try_find_program_address` returns for the given single seed
/// and program id: the derived address (as four 64-bit words) and the bump
/// seed, or `None` in the statistically improbable event that no bump yields
/// a valid off-curve address. The result is a deterministic function of the
/// seed and the program id alone.
pub uninterp spec fn derived_authority_of(seed: Seq<u8>, program_id: Seq<u64>) -> Option<(Seq<u64>, u8)>;

/// The key whose four words are the entries of `w`.
pub open spec fn key_of_words(w: Seq<u64>) -> Key {
    Key { w0: w[0], w1: w[1], w2: w[2], w3: w[3] }
}

/// The derived address for `seed` under `program_id`, as a key, with its
/// bump.
pub open spec fn derived_key(seed: Seq<u8>, program_id: Key) -> Option<(Key, u8)> {
    match derived_authority_of(seed, program_id@) {
        Some(p) => Some((key_of_words(p.0), p.1)),
        None => None,
    }
}

/// The fixed seed from which the vault's custodial authority is derived
/// (the bytes of `"escrow"`).
pub open spec fn escrow_seed() -> Seq<u8> {
    seq![101u8, 115u8, 99u8, 114u8, 111u8, 119u8]
}

/// The fixed seed from which the vault account's own address is derived
/// (the bytes of `"token_seed"`).
pub open spec fn vault_seed() -> Seq<u8> {
    seq![116u8, 111u8, 107u8, 101u8, 110u8, 95u8, 115u8, 101u8, 101u8, 100u8]
}

/// The authority seed, as bytes.
pub fn escrow_seed_bytes() -> (v: Vec<u8>)
    ensures
        v@ == escrow_seed(),
{
    let mut v: Vec<u8> = Vec::new();
    v.push(101u8);
    v.push(115u8);
    v.push(99u8);
    v.push(114u8);
    v.push(111u8);
    v.push(119u8);
    proof {
        assert(v@ =~= escrow_seed());
    }
    v
}

/// The vault-address seed, as bytes.
pub fn vault_seed_bytes() -> (v: Vec<u8>)
    ensures
        v@ == vault_seed(),
{
    let mut v: Vec<u8> = Vec::new();
    v.push(116u8);
    v.push(111u8);
    v.push(107u8);
    v.push(101u8);
    v.push(110u8);
    v.push(95u8);
    v.push(115u8);
    v.push(101u8);
    v.push(101u8);
    v.push(100u8);
    proof {
        assert(v@ =~= vault_seed());
    }
    v
}

/// Relies on `solana_pubkey::Pubkey::try_find_program_address`: the derived
/// address and bump are a deterministic function of the seeds and the program
/// id alone, and the call returns `None`, rather than panicking, when no bump
/// yields a valid derived address.
#[verifier::external_body]
fn try_find_derived_authority(seed: &Vec<u8>, program_id: &Key) -> (r: Option<(Key, u8)>)
    ensures
        (r is Some) == (derived_authority_of(seed@, program_id@) is Some),
        r matches Some(p) ==> derived_authority_of(seed@, program_id@) matches Some(q)
            && p.0@ == q.0 && p.1 == q.1,
{
    let b = [program_id.w0.to_le_bytes(), program_id.w1.to_le_bytes(),
        program_id.w2.to_le_bytes(), program_id.w3.to_le_bytes()];
    let p = Pubkey::new_from_array(b.concat().try_into().unwrap());
    let (a, bump) = Pubkey::try_find_program_address(&[seed.as_slice()], &p)?;
    let o = a.to_bytes();
    Some((Key {
        w0: u64::from_le_bytes(o[..8].try_into().unwrap()),
        w1: u64::from_le_bytes(o[8..16].try_into().unwrap()),
        w2: u64::from_le_bytes(o[16..24].try_into().unwrap()),
        w3: u64::from_le_bytes(o[24..].try_into().unwrap()),
    }, bump))
}

/// Derives the address and bump that `seed` yields under `program_id`.
///
/// This is the derivation contract of the custodial-authority model: the
/// returned address has no private key, is recomputed identically at every
/// call, and serves as the authorization proof for transfers out of the
/// vault.
pub fn derive_authority(seed: &Vec<u8>, program_id: &Key) -> (r: Option<(Key, u8)>)
    ensures
        r == derived_key(seed@, *program_id),
{
    match try_find_derived_authority(seed, program_id) {
        Some(p) => {
            proof {
                let q = derived_authority_of(seed@, program_id@)->0;
                assert(p.0@ == q.0);
                assert(p.0.w0 == p.0@[0] && p.0.w1 == p.0@[1] && p.0.w2 == p.0@[2]
                    && p.0.w3 == p.0@[3]);
                assert(p.0 == key_of_words(q.0));
            }
            Some(p)
        },
        None => None,
    }
}

} // verus!
