use vstd::prelude::*;
use solana_program::pubkey::{Pubkey, PubkeyError};

verus! {

/// The longest seed, in bytes, that the network accepts for a derived address.
pub const MAX_SEED_LEN: usize = 32;

/// A fixed-size identifier naming an account or a program on the ledger.
pub type PublicAddress = [u8; 32];

/// Why an address could not be derived.
#[derive(Debug, Clone, Copy, PartialEq, Eq, Structural)]
pub enum AddressError {
    /// The seed is longer than `MAX_SEED_LEN` bytes.
    MaxSeedLengthExceeded,
    /// The seeds do not give a valid address.
    InvalidSeeds,
    /// The owner's address ends with the marker reserved for program-derived addresses.
    IllegalOwner,
}

/// The address that the network derives from a base address, a seed and an owner program.
pub uninterp spec fn seed_address_of(base: Seq<u8>, seed: Seq<char>, owner: Seq<u8>) -> Seq<u8>;

/// The bytes of the text `ProgramDerivedAddress`.
pub open spec fn pda_marker() -> Seq<u8> {
    seq![
        80u8, 114, 111, 103, 114, 97, 109, 68, 101, 114, 105, 118, 101, 100, 65, 100, 100, 114,
        101, 115, 115,
    ]
}

/// Whether an owner address ends with the program-derived-address marker.
pub open spec fn has_pda_marker(owner: Seq<u8>) -> bool {
    owner.len() >= pda_marker().len() && owner.subrange(
        owner.len() - pda_marker().len(),
        owner.len() as int,
    ) == pda_marker()
}

/// Number of bytes that a character takes in UTF-8.
pub open spec fn char_utf8_len(c: char) -> nat {
    if (c as u32) < 0x80 {
        1
    } else if (c as u32) < 0x800 {
        2
    } else if (c as u32) < 0x10000 {
        3
    } else {
        4
    }
}

/// Number of bytes that a text takes in UTF-8.
pub open spec fn utf8_len(s: Seq<char>) -> nat
    decreases s.len(),
{
    if s.len() == 0 {
        0
    } else {
        utf8_len(s.drop_last()) + char_utf8_len(s.last())
    }
}

/// The outcome of deriving an address from a base, a seed and an owner.
pub open spec fn derive_spec(base: Seq<u8>, seed: Seq<char>, owner: Seq<u8>) -> Result<
    Seq<u8>,
    AddressError,
> {
    if utf8_len(seed) > MAX_SEED_LEN {
        Err(AddressError::MaxSeedLengthExceeded)
    } else if has_pda_marker(owner) {
        Err(AddressError::IllegalOwner)
    } else {
        Ok(seed_address_of(base, seed, owner))
    }
}

/// The view of a derivation's result, with the address as its bytes.
pub open spec fn address_result(r: Result<PublicAddress, AddressError>) -> Result<
    Seq<u8>,
    AddressError,
> {
    match r {
        Ok(a) => Ok(a@),
        Err(e) => Err(e),
    }
}

/// Relies on Pubkey::create_with_seed: it refuses a seed of more than `MAX_SEED_LEN`
/// bytes, then an owner that ends with the program-derived-address marker, and
/// otherwise returns a digest of base, seed and owner.
#[verifier::external_body]
fn create_with_seed(base: &PublicAddress, seed: &str, owner: &PublicAddress) -> (r: Result<
    PublicAddress,
    AddressError,
>)
    ensures
        address_result(r) == derive_spec(base@, seed@, owner@),
        r matches Ok(a) ==> a@ == seed_address_of(base@, seed@, owner@),
{
    let base = Pubkey::new_from_array(*base);
    let owner = Pubkey::new_from_array(*owner);
    match Pubkey::create_with_seed(&base, seed, &owner) {
        Ok(k) => Ok(k.to_bytes()),
        Err(PubkeyError::MaxSeedLengthExceeded) => Err(AddressError::MaxSeedLengthExceeded),
        Err(PubkeyError::InvalidSeeds) => Err(AddressError::InvalidSeeds),
        Err(PubkeyError::IllegalOwner) => Err(AddressError::IllegalOwner),
    }
}

/// Derives the address of the account that `owner` owns for `payer` under `seed`.
pub fn derive_address(payer: &PublicAddress, seed: &str, owner: &PublicAddress) -> (r: Result<
    PublicAddress,
    AddressError,
>)
    ensures
        address_result(r) == derive_spec(payer@, seed@, owner@),
{
    create_with_seed(payer, seed, owner)
}

/// Deriving an address depends on the payer, the seed and the owner alone.
pub proof fn lemma_derive_deterministic(
    payer1: Seq<u8>,
    seed1: Seq<char>,
    owner1: Seq<u8>,
    payer2: Seq<u8>,
    seed2: Seq<char>,
    owner2: Seq<u8>,
)
    requires
        payer1 == payer2,
        seed1 == seed2,
        owner1 == owner2,
    ensures
        derive_spec(payer1, seed1, owner1) == derive_spec(payer2, seed2, owner2),
{
}

/// The seed under which greeting accounts are derived.
pub open spec fn greeting_seed() -> Seq<char> {
    seq!['h', 'e', 'l', 'l', 'o']
}

/// Returns the seed under which greeting accounts are derived.
pub fn get_greeting_seed() -> (r: &'static str)
    ensures
        r@ == greeting_seed(),
{
    let s = "hello";
    proof {
        reveal_strlit("hello");
        assert(s@ =~= greeting_seed());
    }
    s
}

/// The greeting seed fits within `MAX_SEED_LEN` bytes.
pub proof fn lemma_greeting_seed_fits()
    ensures
        utf8_len(greeting_seed()) == 5,
{
    reveal_with_fuel(utf8_len, 6);
    let s = greeting_seed();
    assert(s.drop_last() =~= seq!['h', 'e', 'l', 'l']);
    assert(s.drop_last().drop_last() =~= seq!['h', 'e', 'l']);
    assert(s.drop_last().drop_last().drop_last() =~= seq!['h', 'e']);
    assert(s.drop_last().drop_last().drop_last().drop_last() =~= seq!['h']);
    assert(s.drop_last().drop_last().drop_last().drop_last().drop_last() =~= Seq::<char>::empty());
}

/// Derives the greeting account's address for `payer` and `program`: it fails only
/// when the program's address ends with the program-derived-address marker.
pub fn get_greeting_public_key(payer: &PublicAddress, program: &PublicAddress) -> (r: Result<
    PublicAddress,
    AddressError,
>)
    ensures
        address_result(r) == derive_spec(payer@, greeting_seed(), program@),
        r is Ok <==> !has_pda_marker(program@),
        r matches Ok(a) ==> a@ == seed_address_of(payer@, greeting_seed(), program@),
        r matches Err(e) ==> e == AddressError::IllegalOwner,
{
    proof {
        lemma_greeting_seed_fits();
    }
    derive_address(payer, get_greeting_seed(), program)
}

} // verus!
