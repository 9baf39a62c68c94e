//! Accounting core of a single-validator stake pool, and the guard that
//! restricts what a token account's owner may do from a nested invocation.

mod address;
mod cpi_guard;
mod error;
mod pool;
mod vote;

pub use address::{
    derive_address, derive_pool_addresses, role_seed, same_address, PoolAddresses, PoolRole,
};
pub use error::SinglePoolError;
pub use pool::{InitializeError, PoolState, PoolStep};
pub use vote::check_vote_account;
pub use cpi_guard::{
    disable_cpi_guard, enable_cpi_guard, token_program_id, AccountMeta, CpiGuardError,
    CpiGuardInstruction, GuardedAccount, GuardedOperation, Instruction, InstructionError,
    InvocationContext,
};
