use single_pool_core::{
    disable_cpi_guard, enable_cpi_guard, token_program_id, CpiGuardError, CpiGuardInstruction,
    GuardedAccount, GuardedOperation, InstructionError, InvocationContext,
};

const DIRECT: InvocationContext = InvocationContext { depth: 0 };
const NESTED: InvocationContext = InvocationContext { depth: 1 };

fn enabled_account() -> GuardedAccount {
    let mut a = GuardedAccount::new();
    a.process_toggle(CpiGuardInstruction::Enable, true, DIRECT).unwrap();
    a
}

#[test]
fn enable_nested_fails_direct_succeeds() {
    let mut a = GuardedAccount::new();
    assert_eq!(
        a.process_toggle(CpiGuardInstruction::Enable, true, NESTED),
        Err(CpiGuardError::CpiGuardSettingsLocked)
    );
    assert!(!a.is_enabled());
    assert_eq!(a.process_toggle(CpiGuardInstruction::Enable, true, DIRECT), Ok(()));
    assert!(a.is_enabled());
}

#[test]
fn enable_twice_is_a_no_op() {
    let mut a = enabled_account();
    let before = a;
    assert_eq!(a.process_toggle(CpiGuardInstruction::Enable, true, DIRECT), Ok(()));
    assert_eq!(a, before);
    assert!(a.is_enabled());
}

#[test]
fn toggle_needs_owner_signature() {
    let mut a = GuardedAccount::new();
    assert_eq!(
        a.process_toggle(CpiGuardInstruction::Enable, false, DIRECT),
        Err(CpiGuardError::OwnerSignatureMissing)
    );
    assert!(!a.is_enabled());
}

#[test]
fn disable_needs_extension_and_direct_call() {
    let mut a = GuardedAccount::new();
    assert_eq!(a.process_toggle(CpiGuardInstruction::Disable, true, DIRECT), Err(CpiGuardError::CpiGuardMissing));
    let mut a = enabled_account();
    assert_eq!(
        a.process_toggle(CpiGuardInstruction::Disable, true, NESTED),
        Err(CpiGuardError::CpiGuardSettingsLocked)
    );
    assert!(a.is_enabled());
    assert_eq!(a.process_toggle(CpiGuardInstruction::Disable, true, DIRECT), Ok(()));
    assert!(!a.is_enabled());
    assert!(a.has_cpi_guard);
}

#[test]
fn nested_approve_refused_delegate_transfer_allowed() {
    let a = enabled_account();
    assert_eq!(a.check_operation(GuardedOperation::Approve, NESTED), Err(CpiGuardError::CpiGuardApproveBlocked));
    assert_eq!(a.check_operation(GuardedOperation::Transfer { through_delegate: true }, NESTED), Ok(()));
}

#[test]
fn guarded_operations_when_nested() {
    let a = enabled_account();
    assert_eq!(
        a.check_operation(GuardedOperation::Transfer { through_delegate: false }, NESTED),
        Err(CpiGuardError::CpiGuardTransferBlocked)
    );
    assert_eq!(
        a.check_operation(GuardedOperation::Burn { through_delegate: false }, NESTED),
        Err(CpiGuardError::CpiGuardBurnBlocked)
    );
    assert_eq!(a.check_operation(GuardedOperation::Burn { through_delegate: true }, NESTED), Ok(()));
    assert_eq!(
        a.check_operation(GuardedOperation::CloseAccount { lamports_to_owner: false }, NESTED),
        Err(CpiGuardError::CpiGuardCloseAccountBlocked)
    );
    assert_eq!(a.check_operation(GuardedOperation::CloseAccount { lamports_to_owner: true }, NESTED), Ok(()));
    assert_eq!(
        a.check_operation(GuardedOperation::SetAuthority { removes_close_authority: false }, NESTED),
        Err(CpiGuardError::CpiGuardSetAuthorityBlocked)
    );
    assert_eq!(
        a.check_operation(GuardedOperation::SetAuthority { removes_close_authority: true }, NESTED),
        Ok(())
    );
}

#[test]
fn direct_calls_and_unguarded_accounts_pass() {
    let a = enabled_account();
    assert_eq!(a.check_operation(GuardedOperation::Approve, DIRECT), Ok(()));
    let b = GuardedAccount::new();
    assert_eq!(b.check_operation(GuardedOperation::Approve, NESTED), Ok(()));
}

#[test]
fn instruction_bytes() {
    assert_eq!(CpiGuardInstruction::Enable.to_byte(), 0);
    assert_eq!(CpiGuardInstruction::Disable.to_byte(), 1);
    assert_eq!(CpiGuardInstruction::from_byte(1), Some(CpiGuardInstruction::Disable));
    assert_eq!(CpiGuardInstruction::from_byte(2), None);
}

#[test]
fn build_enable_with_owner_signing() {
    let program = token_program_id();
    let ix = enable_cpi_guard(&program, &[1u8; 32], &[2u8; 32], &[]).unwrap();
    assert_eq!(ix.program_id, program);
    assert_eq!(ix.data, vec![34u8, 0]);
    assert_eq!(ix.accounts.len(), 2);
    assert_eq!(ix.accounts[0].pubkey, [1u8; 32]);
    assert!(ix.accounts[0].is_writable && !ix.accounts[0].is_signer);
    assert_eq!(ix.accounts[1].pubkey, [2u8; 32]);
    assert!(ix.accounts[1].is_signer && !ix.accounts[1].is_writable);
}

#[test]
fn build_disable_with_multisig() {
    let program = token_program_id();
    let ix = disable_cpi_guard(&program, &[1u8; 32], &[2u8; 32], &[[3u8; 32], [4u8; 32]]).unwrap();
    assert_eq!(ix.data, vec![34u8, 1]);
    assert_eq!(ix.accounts.len(), 4);
    assert!(!ix.accounts[1].is_signer);
    assert_eq!(ix.accounts[3].pubkey, [4u8; 32]);
    assert!(ix.accounts[3].is_signer && ix.accounts[2].is_signer);
}

#[test]
fn build_with_wrong_program() {
    assert_eq!(
        enable_cpi_guard(&[0u8; 32], &[1u8; 32], &[2u8; 32], &[]).unwrap_err(),
        InstructionError::IncorrectProgramId
    );
}
