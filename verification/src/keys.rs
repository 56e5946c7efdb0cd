use vstd::prelude::*;

verus! {

broadcast use vstd::array::group_array_axioms;

/// The all-zero address, the placeholder an unreliable publish stores as
/// the emitter authority.
pub open spec fn zero_key() -> Seq<u8> {
    Seq::new(32, |i: int| 0u8)
}

/// A 32-byte account address on the origin chain.
///
/// Addresses are opaque identifiers: the program only ever stores them,
/// copies them and compares them for equality. The view of a `Pubkey` is
/// the sequence of its 32 bytes.
#[derive(Clone, Copy, Debug)]
pub struct Pubkey {
    bytes: [u8; 32],
}

impl View for Pubkey {
    type V = Seq<u8>;

    closed spec fn view(&self) -> Seq<u8> {
        self.bytes@
    }
}

/// The program-derived address of `program_id` for the single seed
/// `seed`, if a viable bump exists for it: a pure function of its two
/// arguments, computed by the platform by hashing until the result
/// leaves the signing curve. `None` both for an over-long seed and in
/// the statistically improbable event that no bump works.
pub uninterp spec fn pda_of(seed: Seq<u8>, program_id: Seq<u8>) -> Option<Seq<u8>>;

/// Relies on `solana_program::pubkey::Pubkey::try_find_program_address`,
/// called with the single seed `seed`: the derivation depends on the
/// seed and the program id alone, and fails only as `pda_of` fails.
#[verifier::external_body]
pub(crate) fn derive_program_address(seed: &[u8], program_id: &Pubkey) -> (r: Option<Pubkey>)
    ensures
        r is Some <==> pda_of(seed@, program_id@) is Some,
        r matches Some(k) ==> pda_of(seed@, program_id@) == Some(k@),
{
    let pid = solana_program::pubkey::Pubkey::new_from_array(program_id.to_bytes());
    solana_program::pubkey::Pubkey::try_find_program_address(&[seed], &pid).map(
        |pair: (solana_program::pubkey::Pubkey, u8)| Pubkey::new(pair.0.to_bytes()),
    )
}

/// Every address views as exactly 32 bytes.
pub broadcast proof fn lemma_key_len(k: Pubkey)
    ensures
        (#[trigger] k@).len() == 32,
{
}

impl Pubkey {
    /// Build an address from its 32 bytes.
    pub fn new(bytes: [u8; 32]) -> (r: Pubkey)
        ensures
            r@ == bytes@,
    {
        Pubkey { bytes }
    }

    /// The all-zero address.
    pub fn zeroed() -> (r: Pubkey)
        ensures
            r@ == zero_key(),
    {
        let bytes: [u8; 32] = [0u8; 32];
        proof {
            assert(bytes@ =~= zero_key());
        }
        Pubkey { bytes }
    }

    /// The 32 bytes of this address.
    pub fn to_bytes(&self) -> (r: [u8; 32])
        ensures
            r@ == self@,
    {
        self.bytes
    }

    /// Copy an address out of a 32-byte slice.
    pub fn from_slice(v: &[u8]) -> (r: Pubkey)
        requires
            v@.len() == 32,
        ensures
            r@ == v@,
    {
        let mut bytes: [u8; 32] = [0u8; 32];
        let mut i: usize = 0;
        while i < 32
            invariant
                i <= 32,
                v@.len() == 32,
                bytes@.len() == 32,
                forall|j: int| 0 <= j < i ==> bytes@[j] == v@[j],
            decreases 32 - i,
        {
            bytes[i] = v[i];
            i = i + 1;
        }
        proof {
            assert(bytes@ =~= v@);
        }
        Pubkey { bytes }
    }

    /// Byte-for-byte equality of two addresses.
    pub fn key_eq(&self, other: &Pubkey) -> (r: bool)
        ensures
            r == (self@ == other@),
    {
        let mut i: usize = 0;
        while i < 32
            invariant
                i <= 32,
                forall|j: int| 0 <= j < i ==> self.bytes@[j] == other.bytes@[j],
            decreases 32 - i,
        {
            if self.bytes[i] != other.bytes[i] {
                return false;
            }
            i = i + 1;
        }
        proof {
            assert(self.bytes@ =~= other.bytes@);
        }
        true
    }
}

} // verus!
