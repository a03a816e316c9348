//! Account addresses and the derivations that yield them.

use vstd::prelude::*;

use solana_program::pubkey::Pubkey;
use std::str::FromStr;

verus! {

/// A 32-byte account address.
#[derive(Clone, Copy, Debug, PartialEq, Eq)]
pub struct Address {
    pub bytes: [u8; 32],
}

impl View for Address {
    type V = Seq<u8>;

    open spec fn view(&self) -> Seq<u8> {
        self.bytes@
    }
}

/// The base58 text of a 32-byte address.
pub uninterp spec fn base58_text(bytes: Seq<u8>) -> Seq<char>;

/// The address that a base58 text denotes, where it denotes one.
pub uninterp spec fn base58_address(text: Seq<char>) -> Option<Seq<u8>>;

/// The address that a program owns under the given seeds, where one exists.
pub uninterp spec fn program_address(seeds: Seq<Seq<u8>>, program: Seq<u8>) -> Option<Seq<u8>>;

/// The token account that the associated-token program keeps for a wallet and a mint.
pub uninterp spec fn associated_token_address(wallet: Seq<u8>, mint: Seq<u8>) -> Seq<u8>;

/// The bytes of each seed, in order.
pub open spec fn seed_bytes(seeds: Seq<Vec<u8>>) -> Seq<Seq<u8>> {
    seeds.map_values(|seed: Vec<u8>| seed@)
}

/// Bytes of the system program's address.
pub open spec fn system_program_bytes() -> Seq<u8> {
    Seq::new(32, |i: int| 0u8)
}

/// Bytes of the address of the wrapped form of the native coin.
pub open spec fn native_mint_bytes() -> Seq<u8> {
    seq![
        6u8, 155u8, 136u8, 87u8, 254u8, 171u8, 129u8, 132u8, 251u8, 104u8, 127u8, 99u8, 70u8,
        24u8, 192u8, 53u8, 218u8, 196u8, 57u8, 220u8, 26u8, 235u8, 59u8, 85u8, 152u8, 160u8,
        240u8, 0u8, 0u8, 0u8, 0u8, 1u8,
    ]
}

/// Bytes of the token program's address.
pub open spec fn token_program_bytes() -> Seq<u8> {
    seq![
        6u8, 221u8, 246u8, 225u8, 215u8, 101u8, 161u8, 147u8, 217u8, 203u8, 225u8, 70u8, 206u8,
        235u8, 121u8, 172u8, 28u8, 180u8, 133u8, 237u8, 95u8, 91u8, 55u8, 145u8, 58u8, 140u8,
        245u8, 133u8, 126u8, 255u8, 0u8, 169u8,
    ]
}

/// Bytes of the associated-token program's address.
pub open spec fn associated_token_program_bytes() -> Seq<u8> {
    seq![
        140u8, 151u8, 37u8, 143u8, 78u8, 36u8, 137u8, 241u8, 187u8, 61u8, 16u8, 41u8, 20u8,
        142u8, 13u8, 131u8, 11u8, 90u8, 19u8, 153u8, 218u8, 255u8, 16u8, 132u8, 4u8, 142u8,
        123u8, 216u8, 219u8, 233u8, 248u8, 89u8,
    ]
}

impl Address {
    /// Compares two addresses byte by byte.
    pub fn same_as(&self, other: &Address) -> (r: bool)
        ensures
            r == (self@ == other@),
    {
        let mut i: usize = 0;
        while i < 32
            invariant
                i <= 32,
                forall|j: int| 0 <= j < i ==> self.bytes@[j] == other.bytes@[j],
            decreases 32 - i,
        {
            if self.bytes[i] != other.bytes[i] {
                return false;
            }
            i += 1;
        }
        assert(self@ =~= other@);
        true
    }

    /// The address of the system program, which stands for the native coin.
    pub fn system_program() -> (r: Address)
        ensures
            r@ == system_program_bytes(),
    {
        let r = Address { bytes: [0u8; 32] };
        assert(r@ =~= system_program_bytes());
        r
    }

    /// The address of the wrapped form of the native coin.
    pub fn native_mint() -> (r: Address)
        ensures
            r@ == native_mint_bytes(),
    {
        let r = Address {
            bytes: [
                6, 155, 136, 87, 254, 171, 129, 132, 251, 104, 127, 99, 70, 24, 192, 53, 218,
                196, 57, 220, 26, 235, 59, 85, 152, 160, 240, 0, 0, 0, 0, 1,
            ],
        };
        assert(r@ =~= native_mint_bytes());
        r
    }

    /// The address of the token program.
    pub fn token_program() -> (r: Address)
        ensures
            r@ == token_program_bytes(),
    {
        let r = Address {
            bytes: [
                6, 221, 246, 225, 215, 101, 161, 147, 217, 203, 225, 70, 206, 235, 121, 172, 28,
                180, 133, 237, 95, 91, 55, 145, 58, 140, 245, 133, 126, 255, 0, 169,
            ],
        };
        assert(r@ =~= token_program_bytes());
        r
    }

    /// The address of the associated-token program.
    pub fn associated_token_program() -> (r: Address)
        ensures
            r@ == associated_token_program_bytes(),
    {
        let r = Address {
            bytes: [
                140, 151, 37, 143, 78, 36, 137, 241, 187, 61, 16, 41, 20, 142, 13, 131, 11, 90,
                19, 153, 218, 255, 16, 132, 4, 142, 123, 216, 219, 233, 248, 89,
            ],
        };
        assert(r@ =~= associated_token_program_bytes());
        r
    }

    /// The address in base58, as it is shown to people.
    pub fn to_base58(&self) -> (r: String)
        ensures
            r@ == base58_text(self@),
    {
        self.encode_base58()
    }

    /// Reads an address from its base58 text.
    pub fn from_base58(text: &str) -> (r: Option<Address>)
        ensures
            r.is_some() == base58_address(text@).is_some(),
            r.is_some() ==> r.unwrap()@ == base58_address(text@).unwrap(),
    {
        Address::decode_base58(text)
    }

    /// Calls `Pubkey`'s `FromStr` implementation, which decodes base58 and accepts a text
    /// of at most 44 bytes that decodes to exactly 32. The contract gives the result a
    /// name.
    #[verifier::external_body]
    pub(crate) fn decode_base58(text: &str) -> (r: Option<Address>)
        ensures
            r.is_some() == base58_address(text@).is_some(),
            r.is_some() ==> r.unwrap()@ == base58_address(text@).unwrap(),
    {
        Pubkey::from_str(text).ok().map(|key| Address { bytes: key.to_bytes() })
    }

    /// Calls `Pubkey`'s `Display` implementation, which writes the base58 encoding of the
    /// 32 bytes. The contract only gives that text a name.
    #[verifier::external_body]
    pub(crate) fn encode_base58(&self) -> (r: String)
        ensures
            r@ == base58_text(self@),
    {
        Pubkey::new_from_array(self.bytes).to_string()
    }
}

/// Calls `Pubkey::try_find_program_address`, which hashes the seeds, a bump seed and the
/// program's address until the digest lies off the curve, and yields nothing when the
/// seeds are too many or too long or no bump seed serves. The contract gives the
/// result a name and states no more of it.
#[verifier::external_body]
pub(crate) fn find_program_address(seeds: &Vec<Vec<u8>>, program: &Address) -> (r: Option<Address>)
    ensures
        r.is_some() == program_address(seed_bytes(seeds@), program@).is_some(),
        r.is_some() ==> r.unwrap()@ == program_address(seed_bytes(seeds@), program@).unwrap(),
{
    let parts: Vec<&[u8]> = seeds.iter().map(|seed| seed.as_slice()).collect();
    Pubkey::try_find_program_address(&parts, &Pubkey::new_from_array(program.bytes))
        .map(|found| Address { bytes: found.0.to_bytes() })
}

/// Calls `spl_associated_token_account::get_associated_token_address`, which derives the
/// address of the token account that belongs to a wallet and a mint. The contract gives
/// the result a name. The outside function gives up only where none of the 255 bump
/// seeds yields an address off the curve.
#[verifier::external_body]
pub(crate) fn derive_associated_token_address(wallet: &Address, mint: &Address) -> (r: Address)
    ensures
        r@ == associated_token_address(wallet@, mint@),
{
    let found = spl_associated_token_account::get_associated_token_address(
        &Pubkey::new_from_array(wallet.bytes),
        &Pubkey::new_from_array(mint.bytes),
    );
    Address { bytes: found.to_bytes() }
}

} // verus!
