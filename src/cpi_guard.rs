//! The CPI guard of a token account: a flag that, while set, restricts what
//! the account's owner may do from a nested invocation, and that can itself
//! only be changed from a direct one.

use vstd::prelude::*;
use crate::address::same_address;

verus! {

/// Cpi Guard extension instructions
#[derive(Clone, Copy, Debug, PartialEq, Eq, Structural)]
pub enum CpiGuardInstruction {
    /// Lock certain token operations from taking place within cpi for this Account, namely:
    /// * Transfer and Burn must go through a delegate.
    /// * CloseAccount can only return lamports to owner.
    /// * SetAuthority can only be used to remove an existing close authority.
    /// * Approve is disallowed entirely.
    ///
    /// In addition, CpiGuard cannot be enabled or disabled via cpi.
    ///
    /// Accounts expected by this instruction:
    ///
    ///   0. `[writable]` The account to update.
    ///   1. `[signer]` The account's owner.
    ///
    ///   * Multisignature authority
    ///   0. `[writable]` The account to update.
    ///   1. `[]` The account's multisignature owner.
    ///   2. ..2+M `[signer]` M signer accounts.
    ///
    Enable,
    /// Allow all token operations to happen via cpi as normal.
    ///
    /// Fails if the account does not have the extension present.
    ///
    /// Accounts expected by this instruction:
    ///
    ///   0. `[writable]` The account to update.
    ///   1. `[signer]` The account's owner.
    ///
    ///   * Multisignature authority
    ///   0. `[writable]` The account to update.
    ///   1. `[]`  The account's multisignature owner.
    ///   2. ..2+M `[signer]` M signer accounts.
    ///
    Disable,
}

/// The byte that stands for each instruction.
pub open spec fn instruction_byte(i: CpiGuardInstruction) -> u8 {
    match i {
        CpiGuardInstruction::Enable => 0,
        CpiGuardInstruction::Disable => 1,
    }
}

impl CpiGuardInstruction {
    /// The byte that stands for this instruction.
    pub fn to_byte(&self) -> (r: u8)
        ensures
            r == instruction_byte(*self),
    {
        match self {
            CpiGuardInstruction::Enable => 0,
            CpiGuardInstruction::Disable => 1,
        }
    }

    /// The instruction that `b` stands for, if any.
    pub fn from_byte(b: u8) -> (r: Option<CpiGuardInstruction>)
        ensures
            r is Some <==> b <= 1,
            r matches Some(i) ==> instruction_byte(i) == b,
    {
        match b {
            0 => Some(CpiGuardInstruction::Enable),
            1 => Some(CpiGuardInstruction::Disable),
            _ => None,
        }
    }
}

/// The byte with which the token program marks a CPI guard instruction.
pub const CPI_GUARD_EXTENSION_TAG: u8 = 34;

/// The id of the token program that owns guarded accounts.
pub open spec fn token_program_address() -> Seq<u8> {
    seq![
        6u8, 221, 246, 225, 238, 117, 143, 222, 24, 66, 93, 188, 228, 108, 205, 218,
        182, 26, 252, 77, 131, 185, 13, 39, 254, 189, 249, 40, 216, 161, 139, 252,
    ]
}

/// The id of the token program that owns guarded accounts.
pub fn token_program_id() -> (r: [u8; 32])
    ensures
        r@ == token_program_address(),
{
    let r: [u8; 32] = [
        6u8, 221, 246, 225, 238, 117, 143, 222, 24, 66, 93, 188, 228, 108, 205, 218,
        182, 26, 252, 77, 131, 185, 13, 39, 254, 189, 249, 40, 216, 161, 139, 252,
    ];
    assert(r@ =~= token_program_address());
    r
}

/// One account that an instruction names, and how it is used.
#[derive(Clone, Copy, Debug)]
pub struct AccountMeta {
    pub pubkey: [u8; 32],
    pub is_signer: bool,
    pub is_writable: bool,
}

/// A request addressed to a program: the accounts it names and its data.
#[derive(Clone, Debug)]
pub struct Instruction {
    pub program_id: [u8; 32],
    pub accounts: Vec<AccountMeta>,
    pub data: Vec<u8>,
}

/// Why an instruction could not be built.
#[derive(Clone, Copy, Debug, PartialEq, Eq, Structural)]
pub enum InstructionError {
    /// The program id is not that of the token program.
    IncorrectProgramId,
}

/// Whether `ix` is the instruction `which` for `account`, owned by `owner`
/// and approved by `signers` (none where the owner signs alone).
pub open spec fn is_guard_instruction(
    ix: Instruction,
    which: CpiGuardInstruction,
    account: [u8; 32],
    owner: [u8; 32],
    signers: Seq<[u8; 32]>,
) -> bool {
    &&& ix.program_id@ == token_program_address()
    &&& ix.accounts@.len() == signers.len() + 2
    &&& ix.accounts@[0] == (AccountMeta { pubkey: account, is_signer: false, is_writable: true })
    &&& ix.accounts@[1] == (AccountMeta { pubkey: owner, is_signer: signers.len() == 0, is_writable: false })
    &&& forall|i: int| 0 <= i < signers.len() ==> ix.accounts@[i + 2] == (AccountMeta {
        pubkey: signers[i],
        is_signer: true,
        is_writable: false,
    })
    &&& ix.data@ == seq![CPI_GUARD_EXTENSION_TAG, instruction_byte(which)]
}

fn guard_instruction(
    which: CpiGuardInstruction,
    token_program: &[u8; 32],
    account: &[u8; 32],
    owner: &[u8; 32],
    signers: &[[u8; 32]],
) -> (r: Result<Instruction, InstructionError>)
    ensures
        r is Ok <==> token_program@ == token_program_address(),
        r matches Ok(ix) ==> is_guard_instruction(ix, which, *account, *owner, signers@),
        r matches Err(e) ==> e == InstructionError::IncorrectProgramId,
{
    let expected = token_program_id();
    if !same_address(token_program, &expected) {
        return Err(InstructionError::IncorrectProgramId);
    }
    let mut accounts: Vec<AccountMeta> = Vec::new();
    accounts.push(AccountMeta { pubkey: *account, is_signer: false, is_writable: true });
    accounts.push(AccountMeta { pubkey: *owner, is_signer: signers.len() == 0, is_writable: false });
    let mut i: usize = 0;
    while i < signers.len()
        invariant
            0 <= i <= signers@.len(),
            accounts@.len() == i + 2,
            accounts@[0] == (AccountMeta { pubkey: *account, is_signer: false, is_writable: true }),
            accounts@[1] == (AccountMeta { pubkey: *owner, is_signer: signers@.len() == 0, is_writable: false }),
            forall|j: int| 0 <= j < i ==> accounts@[j + 2] == (AccountMeta {
                pubkey: signers@[j],
                is_signer: true,
                is_writable: false,
            }),
        decreases signers@.len() - i,
    {
        accounts.push(AccountMeta { pubkey: signers[i], is_signer: true, is_writable: false });
        i = i + 1;
    }
    let data = vec![CPI_GUARD_EXTENSION_TAG, which.to_byte()];
    assert(data@ =~= seq![CPI_GUARD_EXTENSION_TAG, instruction_byte(which)]);
    Ok(Instruction { program_id: *token_program, accounts, data })
}

/// Create an `Enable` instruction
pub fn enable_cpi_guard(
    token_program_id: &[u8; 32],
    account: &[u8; 32],
    owner: &[u8; 32],
    signers: &[[u8; 32]],
) -> (r: Result<Instruction, InstructionError>)
    ensures
        r is Ok <==> token_program_id@ == token_program_address(),
        r matches Ok(ix) ==> is_guard_instruction(ix, CpiGuardInstruction::Enable, *account, *owner, signers@),
        r matches Err(e) ==> e == InstructionError::IncorrectProgramId,
{
    guard_instruction(CpiGuardInstruction::Enable, token_program_id, account, owner, signers)
}

/// Create a `Disable` instruction
pub fn disable_cpi_guard(
    token_program_id: &[u8; 32],
    account: &[u8; 32],
    owner: &[u8; 32],
    signers: &[[u8; 32]],
) -> (r: Result<Instruction, InstructionError>)
    ensures
        r is Ok <==> token_program_id@ == token_program_address(),
        r matches Ok(ix) ==> is_guard_instruction(ix, CpiGuardInstruction::Disable, *account, *owner, signers@),
        r matches Err(e) ==> e == InstructionError::IncorrectProgramId,
{
    guard_instruction(CpiGuardInstruction::Disable, token_program_id, account, owner, signers)
}


/// The guard state of one token account.
#[derive(Clone, Copy, Debug, PartialEq, Eq, Structural)]
pub struct GuardedAccount {
    /// Whether the account carries the guard at all.
    pub has_cpi_guard: bool,
    /// Whether the guard is enabled.
    pub lock_cpi: bool,
}

/// How deep the current call stands: 0 for a direct call, more for a call
/// made by another program.
#[derive(Clone, Copy, Debug, PartialEq, Eq, Structural)]
pub struct InvocationContext {
    pub depth: u64,
}

/// A token operation that the guard restricts, with the facts it decides on.
#[derive(Clone, Copy, Debug, PartialEq, Eq, Structural)]
pub enum GuardedOperation {
    Transfer { through_delegate: bool },
    Burn { through_delegate: bool },
    CloseAccount { lamports_to_owner: bool },
    SetAuthority { removes_close_authority: bool },
    Approve,
}

/// Why the guard refused a request.
#[derive(Clone, Copy, Debug, PartialEq, Eq, Structural)]
pub enum CpiGuardError {
    /// The owner, or a quorum of its signers, did not sign.
    OwnerSignatureMissing,
    /// The guard cannot be changed from a nested invocation.
    CpiGuardSettingsLocked,
    /// The account does not carry the guard.
    CpiGuardMissing,
    /// A guarded transfer must go through a delegate.
    CpiGuardTransferBlocked,
    /// A guarded burn must go through a delegate.
    CpiGuardBurnBlocked,
    /// A guarded close must return the lamports to the owner.
    CpiGuardCloseAccountBlocked,
    /// A guarded authority change may only remove the close authority.
    CpiGuardSetAuthorityBlocked,
    /// A guarded account cannot approve a delegate.
    CpiGuardApproveBlocked,
}

/// What enabling or disabling the guard gives.
pub open spec fn toggle_result(
    a: GuardedAccount,
    which: CpiGuardInstruction,
    owner_signed: bool,
    depth: u64,
) -> Result<GuardedAccount, CpiGuardError> {
    if !owner_signed {
        Err(CpiGuardError::OwnerSignatureMissing)
    } else if depth > 0 {
        Err(CpiGuardError::CpiGuardSettingsLocked)
    } else {
        match which {
            CpiGuardInstruction::Enable => Ok(GuardedAccount { has_cpi_guard: true, lock_cpi: true }),
            CpiGuardInstruction::Disable => if a.has_cpi_guard {
                Ok(GuardedAccount { has_cpi_guard: true, lock_cpi: false })
            } else {
                Err(CpiGuardError::CpiGuardMissing)
            },
        }
    }
}

/// Whether the guard restricts what happens at this depth.
pub open spec fn guard_active(a: GuardedAccount, depth: u64) -> bool {
    a.has_cpi_guard && a.lock_cpi && depth > 0
}

/// Whether the guard lets `op` through.
pub open spec fn operation_check(a: GuardedAccount, op: GuardedOperation, depth: u64) -> Result<(), CpiGuardError> {
    if !guard_active(a, depth) {
        Ok(())
    } else {
        match op {
            GuardedOperation::Transfer { through_delegate } => if through_delegate {
                Ok(())
            } else {
                Err(CpiGuardError::CpiGuardTransferBlocked)
            },
            GuardedOperation::Burn { through_delegate } => if through_delegate {
                Ok(())
            } else {
                Err(CpiGuardError::CpiGuardBurnBlocked)
            },
            GuardedOperation::CloseAccount { lamports_to_owner } => if lamports_to_owner {
                Ok(())
            } else {
                Err(CpiGuardError::CpiGuardCloseAccountBlocked)
            },
            GuardedOperation::SetAuthority { removes_close_authority } => if removes_close_authority {
                Ok(())
            } else {
                Err(CpiGuardError::CpiGuardSetAuthorityBlocked)
            },
            GuardedOperation::Approve => Err(CpiGuardError::CpiGuardApproveBlocked),
        }
    }
}

impl GuardedAccount {
    /// An account without the guard.
    pub fn new() -> (r: GuardedAccount)
        ensures
            !r.has_cpi_guard,
            !r.lock_cpi,
    {
        GuardedAccount { has_cpi_guard: false, lock_cpi: false }
    }

    /// Whether the guard is enabled.
    pub fn is_enabled(&self) -> (r: bool)
        ensures
            r == (self.has_cpi_guard && self.lock_cpi),
    {
        self.has_cpi_guard && self.lock_cpi
    }

    /// Enables or disables the guard. The owner must have signed, and the
    /// call must be direct; disabling needs the guard to be there. On failure
    /// the account is left as it was.
    pub fn process_toggle(
        &mut self,
        which: CpiGuardInstruction,
        owner_signed: bool,
        context: InvocationContext,
    ) -> (r: Result<(), CpiGuardError>)
        ensures
            match toggle_result(*old(self), which, owner_signed, context.depth) {
                Ok(n) => r is Ok && *final(self) == n,
                Err(e) => r == Err::<(), CpiGuardError>(e) && *final(self) == *old(self),
            },
    {
        if !owner_signed {
            return Err(CpiGuardError::OwnerSignatureMissing);
        }
        if context.depth > 0 {
            return Err(CpiGuardError::CpiGuardSettingsLocked);
        }
        match which {
            CpiGuardInstruction::Enable => {
                self.has_cpi_guard = true;
                self.lock_cpi = true;
                Ok(())
            },
            CpiGuardInstruction::Disable => {
                if !self.has_cpi_guard {
                    return Err(CpiGuardError::CpiGuardMissing);
                }
                self.lock_cpi = false;
                Ok(())
            },
        }
    }

    /// Whether the guard lets `op` through in `context`: with the guard
    /// enabled and the call nested, transfers and burns must go through a
    /// delegate, a close must pay the owner, an authority change may only
    /// remove the close authority, and approvals are refused.
    pub fn check_operation(&self, op: GuardedOperation, context: InvocationContext) -> (r: Result<
        (),
        CpiGuardError,
    >)
        ensures
            r == operation_check(*self, op, context.depth),
    {
        if !(self.has_cpi_guard && self.lock_cpi && context.depth > 0) {
            return Ok(());
        }
        match op {
            GuardedOperation::Transfer { through_delegate } => if through_delegate {
                Ok(())
            } else {
                Err(CpiGuardError::CpiGuardTransferBlocked)
            },
            GuardedOperation::Burn { through_delegate } => if through_delegate {
                Ok(())
            } else {
                Err(CpiGuardError::CpiGuardBurnBlocked)
            },
            GuardedOperation::CloseAccount { lamports_to_owner } => if lamports_to_owner {
                Ok(())
            } else {
                Err(CpiGuardError::CpiGuardCloseAccountBlocked)
            },
            GuardedOperation::SetAuthority { removes_close_authority } => if removes_close_authority {
                Ok(())
            } else {
                Err(CpiGuardError::CpiGuardSetAuthorityBlocked)
            },
            GuardedOperation::Approve => Err(CpiGuardError::CpiGuardApproveBlocked),
        }
    }
}

/// Enabling twice is the same as enabling once: where the first call
/// succeeds the guard is enabled, and the second call succeeds and changes
/// nothing.
pub proof fn lemma_enable_idempotent(a: GuardedAccount, owner_signed: bool, depth: u64)
    ensures
        toggle_result(a, CpiGuardInstruction::Enable, owner_signed, depth) matches Ok(n) ==> {
            &&& n.has_cpi_guard && n.lock_cpi
            &&& toggle_result(n, CpiGuardInstruction::Enable, owner_signed, depth) == Ok::<
                GuardedAccount,
                CpiGuardError,
            >(n)
        },
{
}

/// The guard cannot be changed from a nested invocation, whatever the
/// account and the signatures.
pub proof fn lemma_settings_locked_when_nested(a: GuardedAccount, which: CpiGuardInstruction, owner_signed: bool, depth: u64)
    requires
        depth > 0,
    ensures
        toggle_result(a, which, owner_signed, depth) is Err,
{
}

/// With the guard enabled, a nested approval is always refused.
pub proof fn lemma_nested_approve_refused(a: GuardedAccount, depth: u64)
    requires
        a.has_cpi_guard,
        a.lock_cpi,
        depth > 0,
    ensures
        operation_check(a, GuardedOperation::Approve, depth) == Err::<(), CpiGuardError>(
            CpiGuardError::CpiGuardApproveBlocked,
        ),
{
}

} // verus!
