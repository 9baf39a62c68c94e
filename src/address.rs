//! Canonical pool addresses, derived from a validator identity and a seed tag
//! per role, and the comparison that guards against substituted accounts.

use vstd::prelude::*;

verus! {

/// The four accounts a pool derives for its validator.
#[derive(Clone, Copy, Debug, PartialEq, Eq, Structural)]
pub enum PoolRole {
    Authority,
    StakeAccount,
    Mint,
    Metadata,
}

/// The seed tag of each role: "authority", "stake", "mint" and "metadata".
pub open spec fn role_tag(role: PoolRole) -> Seq<u8> {
    match role {
        PoolRole::Authority => seq![97u8, 117, 116, 104, 111, 114, 105, 116, 121],
        PoolRole::StakeAccount => seq![115u8, 116, 97, 107, 101],
        PoolRole::Mint => seq![109u8, 105, 110, 116],
        PoolRole::Metadata => seq![109u8, 101, 116, 97, 100, 97, 116, 97],
    }
}

/// The seeds an address of `role` is derived from.
pub open spec fn derivation_seeds(role: PoolRole, validator: Seq<u8>) -> Seq<Seq<u8>> {
    seq![role_tag(role), validator]
}

/// What program-address derivation gives for these seeds and program, or
/// `None` where no valid address exists.
pub uninterp spec fn program_address(seeds: Seq<Seq<u8>>, program_id: Seq<u8>) -> Option<Seq<u8>>;

/// The address of `role` for `validator` under `program_id`.
pub open spec fn role_address(role: PoolRole, validator: Seq<u8>, program_id: Seq<u8>) -> Option<Seq<u8>> {
    program_address(derivation_seeds(role, validator), program_id)
}

/// Whether every role of `validator` has a valid address under `program_id`.
pub open spec fn pool_addresses_exist(validator: Seq<u8>, program_id: Seq<u8>) -> bool {
    &&& role_address(PoolRole::Authority, validator, program_id) is Some
    &&& role_address(PoolRole::StakeAccount, validator, program_id) is Some
    &&& role_address(PoolRole::Mint, validator, program_id) is Some
    &&& role_address(PoolRole::Metadata, validator, program_id) is Some
}

/// Whether `p` holds the derived address of each role.
pub open spec fn pool_addresses_derived(p: PoolAddresses, validator: Seq<u8>, program_id: Seq<u8>) -> bool {
    &&& role_address(PoolRole::Authority, validator, program_id) == Some(p.authority@)
    &&& role_address(PoolRole::StakeAccount, validator, program_id) == Some(p.stake_account@)
    &&& role_address(PoolRole::Mint, validator, program_id) == Some(p.mint@)
    &&& role_address(PoolRole::Metadata, validator, program_id) == Some(p.metadata@)
}

/// The addresses a pool uses, one per role.
#[derive(Clone, Copy, Debug, PartialEq, Eq)]
pub struct PoolAddresses {
    pub authority: [u8; 32],
    pub stake_account: [u8; 32],
    pub mint: [u8; 32],
    pub metadata: [u8; 32],
}

/// Relies on solana_program's `Pubkey::try_find_program_address`: the address
/// it finds is a function of the seeds and the program id alone.
#[verifier::external_body]
fn find_program_address(tag: &Vec<u8>, validator: &[u8; 32], program_id: &[u8; 32]) -> (r: Option<[u8; 32]>)
    ensures
        r is Some <==> program_address(seq![tag@, validator@], program_id@) is Some,
        r matches Some(a) ==> program_address(seq![tag@, validator@], program_id@) == Some(a@),
{
    let program = solana_program::pubkey::Pubkey::new_from_array(*program_id);
    let seeds: [&[u8]; 2] = [tag.as_slice(), validator.as_slice()];
    solana_program::pubkey::Pubkey::try_find_program_address(&seeds, &program).map(|found| found.0.to_bytes())
}

/// The seed tag of `role`.
pub fn role_seed(role: PoolRole) -> (r: Vec<u8>)
    ensures
        r@ == role_tag(role),
{
    let r = match role {
        PoolRole::Authority => vec![97u8, 117, 116, 104, 111, 114, 105, 116, 121],
        PoolRole::StakeAccount => vec![115u8, 116, 97, 107, 101],
        PoolRole::Mint => vec![109u8, 105, 110, 116],
        PoolRole::Metadata => vec![109u8, 101, 116, 97, 100, 97, 116, 97],
    };
    assert(r@ =~= role_tag(role));
    r
}

/// The canonical address of `role` for `validator`, if one exists.
pub fn derive_address(role: PoolRole, validator: &[u8; 32], program_id: &[u8; 32]) -> (r: Option<[u8; 32]>)
    ensures
        r is Some <==> role_address(role, validator@, program_id@) is Some,
        r matches Some(a) ==> role_address(role, validator@, program_id@) == Some(a@),
{
    let tag = role_seed(role);
    find_program_address(&tag, validator, program_id)
}

/// All four canonical addresses of the pool of `validator`; `None` only where
/// one of them has no valid derivation.
pub fn derive_pool_addresses(validator: &[u8; 32], program_id: &[u8; 32]) -> (r: Option<PoolAddresses>)
    ensures
        r is Some <==> pool_addresses_exist(validator@, program_id@),
        r matches Some(p) ==> pool_addresses_derived(p, validator@, program_id@),
{
    let authority = derive_address(PoolRole::Authority, validator, program_id);
    let stake_account = derive_address(PoolRole::StakeAccount, validator, program_id);
    let mint = derive_address(PoolRole::Mint, validator, program_id);
    let metadata = derive_address(PoolRole::Metadata, validator, program_id);
    match (authority, stake_account, mint, metadata) {
        (Some(authority), Some(stake_account), Some(mint), Some(metadata)) =>
            Some(PoolAddresses { authority, stake_account, mint, metadata }),
        _ => None,
    }
}

/// Whether two addresses are the same.
pub fn same_address(a: &[u8; 32], b: &[u8; 32]) -> (r: bool)
    ensures
        r == (a@ == b@),
{
    let mut i: usize = 0;
    while i < 32
        invariant
            0 <= i <= 32,
            a@.len() == 32,
            b@.len() == 32,
            forall|j: int| 0 <= j < i ==> a@[j] == b@[j],
        decreases 32 - i,
    {
        if a[i] != b[i] {
            return false;
        }
        i = i + 1;
    }
    assert(a@ =~= b@);
    true
}

/// Derivation inputs never coincide across roles or validators: the seeds of
/// one role and validator differ from those of any other role or validator,
/// so a collision-free derivation gives every role of every validator its
/// own address. The same inputs always give the same address.
pub proof fn lemma_derivation_inputs_injective(
    r1: PoolRole,
    v1: Seq<u8>,
    r2: PoolRole,
    v2: Seq<u8>,
    program_id: Seq<u8>,
)
    ensures
        derivation_seeds(r1, v1) == derivation_seeds(r2, v2) ==> r1 == r2 && v1 == v2,
        role_address(r1, v1, program_id) == program_address(derivation_seeds(r1, v1), program_id),
{
    if derivation_seeds(r1, v1) == derivation_seeds(r2, v2) {
        assert(derivation_seeds(r1, v1)[0] == role_tag(r1));
        assert(derivation_seeds(r2, v2)[0] == role_tag(r2));
        assert(role_tag(r1).len() == role_tag(r2).len());
        assert(derivation_seeds(r1, v1)[1] == v1);
        assert(derivation_seeds(r2, v2)[1] == v2);
    }
}

} // verus!
