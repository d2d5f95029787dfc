use vstd::prelude::*;
use crate::pubkey::Pubkey;

verus! {

/// The program address derived from the seeds `seed` and `[bump]` under the
/// program `program_id`, or `None` where these seeds derive no address.
pub uninterp spec fn program_address(seed: Pubkey, bump: u8, program_id: Pubkey) -> Option<Pubkey>;

/// The program address found for the seed `seed` under the program
/// `program_id`, with the offset that it was found with.
pub uninterp spec fn found_program_address(seed: Pubkey, program_id: Pubkey) -> Option<(Pubkey, u8)>;

/// Calls `Pubkey::create_program_address` of `anchor_lang` on the two seeds
/// `seed` and `[bump]`. Trusted: the result is a function of the three
/// arguments alone, named `program_address`; an error of the outside function
/// (the seeds derive no address) is given as `None`.
#[verifier::external_body]
fn create_program_address(seed: &Pubkey, bump: u8, program_id: &Pubkey) -> (address: Option<Pubkey>)
    ensures
        address == program_address(*seed, bump, *program_id),
{
    let program = anchor_lang::prelude::Pubkey::new_from_array(program_id.bytes);
    anchor_lang::prelude::Pubkey::create_program_address(&[&seed.bytes, &[bump]], &program)
        .ok()
        .map(|a| Pubkey { bytes: a.to_bytes() })
}

/// Calls `Pubkey::try_find_program_address` of `anchor_lang` on the one seed
/// `seed`. Trusted: the result is a function of the two arguments alone, named
/// `found_program_address`; and the address that is found is the one that
/// `create_program_address` derives from `seed` and the offset that is found.
#[verifier::external_body]
fn try_find_program_address(seed: &Pubkey, program_id: &Pubkey) -> (found: Option<(Pubkey, u8)>)
    ensures
        found == found_program_address(*seed, *program_id),
        found matches Some((a, bump)) ==> program_address(*seed, bump, *program_id) == Some(a),
{
    let program = anchor_lang::prelude::Pubkey::new_from_array(program_id.bytes);
    anchor_lang::prelude::Pubkey::try_find_program_address(&[&seed.bytes], &program)
        .map(|(a, bump)| (Pubkey { bytes: a.to_bytes() }, bump))
}

/// The identity in whose name a timelock replays staged instructions.
///
/// It is derived from the identity of the timelock and a stored offset, and no
/// private key belongs to it: the replay engine asserts its signature.
#[derive(Clone, Copy, Debug, PartialEq, Eq)]
pub struct DelegatedSigner {
    /// The timelock that the signer acts for.
    pub timelock: Pubkey,
    /// The offset that the signer was derived with.
    pub bump: u8,
    /// The identity of the signer.
    pub address: Pubkey,
}

impl DelegatedSigner {
    /// The signer that `program_id` derives for `timelock` and `bump`.
    pub open spec fn derived(
        program_id: Pubkey,
        timelock: Pubkey,
        bump: u8,
    ) -> Option<DelegatedSigner> {
        match program_address(timelock, bump, program_id) {
            Some(address) => Some(DelegatedSigner { timelock, bump, address }),
            None => None,
        }
    }

    /// The signer that `program_id` finds for `timelock`.
    pub open spec fn found(program_id: Pubkey, timelock: Pubkey) -> Option<DelegatedSigner> {
        match found_program_address(timelock, program_id) {
            Some((address, bump)) => Some(DelegatedSigner { timelock, bump, address }),
            None => None,
        }
    }

    /// Derives the signer of `timelock` for the stored offset `bump`. The same
    /// arguments always give the same signer; `None` where the offset derives
    /// no address.
    pub fn derive(
        program_id: &Pubkey,
        timelock: &Pubkey,
        bump: u8,
    ) -> (signer: Option<DelegatedSigner>)
        ensures
            signer == Self::derived(*program_id, *timelock, bump),
    {
        match create_program_address(timelock, bump, program_id) {
            Some(address) => Some(DelegatedSigner { timelock: *timelock, bump, address }),
            None => None,
        }
    }

    /// Searches the offset with which `timelock` has a signer. The signer that
    /// is found is the one that `derive` gives for the offset that is found.
    pub fn find(program_id: &Pubkey, timelock: &Pubkey) -> (signer: Option<DelegatedSigner>)
        ensures
            signer == Self::found(*program_id, *timelock),
            signer matches Some(s) ==> Self::derived(*program_id, *timelock, s.bump) == signer,
    {
        match try_find_program_address(timelock, program_id) {
            Some((address, bump)) => Some(DelegatedSigner { timelock: *timelock, bump, address }),
            None => None,
        }
    }
}

/// Whether the account `presented` is the signer `derived`. Where no signer
/// was derived, no account is.
pub open spec fn signer_matches(derived: Option<DelegatedSigner>, presented: Pubkey) -> bool {
    match derived {
        Some(s) => s.address == presented,
        None => false,
    }
}

/// Whether the account `presented` is the signer `derived`.
pub fn check_signer(derived: &Option<DelegatedSigner>, presented: &Pubkey) -> (same: bool)
    ensures
        same == signer_matches(*derived, *presented),
{
    match derived {
        Some(s) => s.address == *presented,
        None => false,
    }
}

} // verus!
