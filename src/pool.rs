//! Pool accounting: the exchange rate between staked lamports and pool
//! tokens, and the initialize, deposit and withdraw transitions.

use vstd::prelude::*;
use crate::address::{
    derive_address, derive_pool_addresses, role_address, PoolRole, pool_addresses_derived, pool_addresses_exist, same_address, PoolAddresses,
};
use crate::error::SinglePoolError;
use crate::vote::{vote_account_check, check_vote_account};

verus! {

/// The totals of one pool.
///
/// A well-formed pool has pool tokens outstanding exactly when it holds
/// stake, and an uninitialized pool holds neither.
#[derive(Clone, Copy, Debug, PartialEq, Eq)]
pub struct PoolState {
    pub initialized: bool,
    pub validator: [u8; 32],
    pub total_staked_lamports: u64,
    pub token_supply: u64,
}

/// Why initialization was refused.
#[derive(Clone, Copy, Debug, PartialEq, Eq, Structural)]
pub enum InitializeError {
    /// The pool's accounts exist already.
    AlreadyInitialized,
    /// No valid address exists for one of the pool's roles.
    NoValidAddress,
    /// A check of the pool's own failed.
    Pool(SinglePoolError),
}

/// At a fresh pool one lamport is worth one token.
pub open spec fn fresh_rate(staked: int, supply: int) -> bool {
    staked == 0 || supply == 0
}

/// Pool tokens owed for `lamports`, rounded down.
pub open spec fn tokens_for_lamports(lamports: int, staked: int, supply: int) -> int {
    if fresh_rate(staked, supply) {
        lamports
    } else {
        lamports * supply / staked
    }
}

/// Lamports owed for `tokens`, rounded down.
pub open spec fn lamports_for_tokens(tokens: int, staked: int, supply: int) -> int {
    if fresh_rate(staked, supply) {
        tokens
    } else {
        tokens * staked / supply
    }
}

/// An amount as a `u64`, or the overflow error where it does not fit.
pub open spec fn checked_amount(v: int) -> Result<u64, SinglePoolError> {
    if 0 <= v <= u64::MAX {
        Ok(v as u64)
    } else {
        Err(SinglePoolError::ArithmeticOverflow)
    }
}

/// What initialization gives, for the derived addresses `expected`.
pub open spec fn initialize_result(
    s: PoolState,
    validator: Seq<u8>,
    vote_data: Seq<u8>,
    rent_provided: u64,
    rent_required: u64,
    minimum_delegation: u64,
    supplied: PoolAddresses,
    expected: PoolAddresses,
) -> Result<PoolState, InitializeError> {
    if s.initialized {
        Err(InitializeError::AlreadyInitialized)
    } else if vote_account_check(vote_data) is Err {
        Err(InitializeError::Pool(vote_account_check(vote_data)->Err_0))
    } else if rent_provided != rent_required {
        Err(InitializeError::Pool(SinglePoolError::WrongRentAmount))
    } else if supplied.stake_account@ != expected.stake_account@ {
        Err(InitializeError::Pool(SinglePoolError::InvalidPoolStakeAccount))
    } else if supplied.authority@ != expected.authority@ {
        Err(InitializeError::Pool(SinglePoolError::InvalidPoolAuthority))
    } else if supplied.mint@ != expected.mint@ {
        Err(InitializeError::Pool(SinglePoolError::InvalidPoolMint))
    } else {
        Ok(PoolState {
            initialized: true,
            validator: s.validator,
            total_staked_lamports: minimum_delegation,
            token_supply: minimum_delegation,
        })
    }
}

/// What a deposit of `lamports` gives: the new totals and the tokens minted.
pub open spec fn deposit_result(
    s: PoolState,
    stake_address_matches: bool,
    stake_delegated: bool,
    lamports: u64,
) -> Result<(PoolState, u64), SinglePoolError> {
    let staked = s.total_staked_lamports as int;
    let supply = s.token_supply as int;
    let tokens = tokens_for_lamports(lamports as int, staked, supply);
    if !stake_address_matches {
        Err(SinglePoolError::InvalidPoolStakeAccount)
    } else if !s.initialized || !stake_delegated {
        Err(SinglePoolError::WrongStakeState)
    } else if tokens > u64::MAX {
        Err(SinglePoolError::ArithmeticOverflow)
    } else if tokens == 0 {
        Err(SinglePoolError::DepositTooSmall)
    } else if staked + lamports > u64::MAX || supply + tokens > u64::MAX {
        Err(SinglePoolError::ArithmeticOverflow)
    } else {
        Ok((
            PoolState {
                total_staked_lamports: (staked + lamports) as u64,
                token_supply: (supply + tokens) as u64,
                ..s
            },
            tokens as u64,
        ))
    }
}

/// What a withdrawal of `tokens` gives: the new totals and the lamports split
/// off. The pool keeps at least `minimum_delegation` lamports.
pub open spec fn withdraw_result(
    s: PoolState,
    authority_signed: bool,
    tokens: u64,
    minimum_delegation: u64,
) -> Result<(PoolState, u64), SinglePoolError> {
    let staked = s.total_staked_lamports as int;
    let supply = s.token_supply as int;
    let lamports = lamports_for_tokens(tokens as int, staked, supply);
    if !authority_signed {
        Err(SinglePoolError::SignatureMissing)
    } else if !s.initialized {
        Err(SinglePoolError::WrongStakeState)
    } else if tokens > supply {
        Err(SinglePoolError::ArithmeticOverflow)
    } else if lamports > u64::MAX {
        Err(SinglePoolError::ArithmeticOverflow)
    } else if lamports == 0 {
        Err(SinglePoolError::WithdrawalTooSmall)
    } else if lamports > staked {
        Err(SinglePoolError::ArithmeticOverflow)
    } else if staked - lamports < minimum_delegation {
        Err(SinglePoolError::WrongStakeState)
    } else {
        Ok((
            PoolState {
                total_staked_lamports: (staked - lamports) as u64,
                token_supply: (supply - tokens) as u64,
                ..s
            },
            lamports as u64,
        ))
    }
}

proof fn lemma_product_fits(a: u64, b: u64)
    ensures
        0 <= (a as int) * (b as int) <= u128::MAX,
{
    assert(0 <= (a as int) * (b as int) <= (u64::MAX as int) * (u64::MAX as int)) by (nonlinear_arith)
        requires
            0 <= a <= u64::MAX,
            0 <= b <= u64::MAX,
    ;
}

/// `floor(a * b / c)` in 128 bits, or the overflow error where it exceeds a `u64`.
fn mul_div(a: u64, b: u64, c: u64) -> (r: Result<u64, SinglePoolError>)
    requires
        c > 0,
    ensures
        r == checked_amount((a as int) * (b as int) / (c as int)),
{
    proof {
        lemma_product_fits(a, b);
    }
    let product: u128 = (a as u128) * (b as u128);
    let quotient: u128 = product / (c as u128);
    if quotient > u64::MAX as u128 {
        Err(SinglePoolError::ArithmeticOverflow)
    } else {
        Ok(quotient as u64)
    }
}

impl PoolState {
    pub open spec fn wf(&self) -> bool {
        &&& (self.token_supply == 0 <==> self.total_staked_lamports == 0)
        &&& !self.initialized ==> self.token_supply == 0
    }

    /// The pool of `validator` before initialization.
    pub fn new(validator: [u8; 32]) -> (r: PoolState)
        ensures
            r.wf(),
            !r.initialized,
            r.validator == validator,
            r.total_staked_lamports == 0,
            r.token_supply == 0,
    {
        PoolState { initialized: false, validator, total_staked_lamports: 0, token_supply: 0 }
    }

    /// Pool tokens worth `lamports` at the current rate, rounded down.
    pub fn lamports_to_tokens(&self, lamports: u64) -> (r: Result<u64, SinglePoolError>)
        ensures
            r == checked_amount(
                tokens_for_lamports(lamports as int, self.total_staked_lamports as int, self.token_supply as int),
            ),
    {
        if self.total_staked_lamports == 0 || self.token_supply == 0 {
            Ok(lamports)
        } else {
            mul_div(lamports, self.token_supply, self.total_staked_lamports)
        }
    }

    /// Lamports worth `tokens` at the current rate, rounded down.
    pub fn tokens_to_lamports(&self, tokens: u64) -> (r: Result<u64, SinglePoolError>)
        ensures
            r == checked_amount(
                lamports_for_tokens(tokens as int, self.total_staked_lamports as int, self.token_supply as int),
            ),
    {
        if self.total_staked_lamports == 0 || self.token_supply == 0 {
            Ok(tokens)
        } else {
            mul_div(tokens, self.total_staked_lamports, self.token_supply)
        }
    }

    /// Initializes the pool against the addresses derived for its validator,
    /// `expected`: the vote account must be of a current layout, the rent
    /// provided must be exactly the rent required, and each supplied address
    /// must be the derived one. The pool starts with `minimum_delegation`
    /// lamports staked and as many tokens minted.
    pub fn initialize_with_addresses(
        &self,
        vote_data: &Vec<u8>,
        rent_provided: u64,
        rent_required: u64,
        minimum_delegation: u64,
        supplied: &PoolAddresses,
        expected: &PoolAddresses,
    ) -> (r: Result<PoolState, InitializeError>)
        ensures
            r == initialize_result(
                *self,
                self.validator@,
                vote_data@,
                rent_provided,
                rent_required,
                minimum_delegation,
                *supplied,
                *expected,
            ),
            self.wf() && r is Ok ==> r->Ok_0.wf(),
    {
        if self.initialized {
            return Err(InitializeError::AlreadyInitialized);
        }
        match check_vote_account(vote_data) {
            Err(e) => {
                return Err(InitializeError::Pool(e));
            },
            Ok(()) => {},
        }
        if rent_provided != rent_required {
            return Err(InitializeError::Pool(SinglePoolError::WrongRentAmount));
        }
        if !same_address(&supplied.stake_account, &expected.stake_account) {
            return Err(InitializeError::Pool(SinglePoolError::InvalidPoolStakeAccount));
        }
        if !same_address(&supplied.authority, &expected.authority) {
            return Err(InitializeError::Pool(SinglePoolError::InvalidPoolAuthority));
        }
        if !same_address(&supplied.mint, &expected.mint) {
            return Err(InitializeError::Pool(SinglePoolError::InvalidPoolMint));
        }
        Ok(PoolState {
            initialized: true,
            validator: self.validator,
            total_staked_lamports: minimum_delegation,
            token_supply: minimum_delegation,
        })
    }

    /// Initializes the pool: derives its addresses under `program_id` and
    /// proceeds as `initialize_with_addresses` does with them.
    pub fn initialize(
        &self,
        program_id: &[u8; 32],
        vote_data: &Vec<u8>,
        rent_provided: u64,
        rent_required: u64,
        minimum_delegation: u64,
        supplied: &PoolAddresses,
    ) -> (r: Result<PoolState, InitializeError>)
        ensures
            self.initialized ==> r == Err::<PoolState, InitializeError>(InitializeError::AlreadyInitialized),
            !self.initialized && !pool_addresses_exist(self.validator@, program_id@)
                ==> r == Err::<PoolState, InitializeError>(InitializeError::NoValidAddress),
            !self.initialized && pool_addresses_exist(self.validator@, program_id@) ==> exists|expected: PoolAddresses|
                pool_addresses_derived(expected, self.validator@, program_id@) && r == initialize_result(
                    *self,
                    self.validator@,
                    vote_data@,
                    rent_provided,
                    rent_required,
                    minimum_delegation,
                    *supplied,
                    expected,
                ),
            self.wf() && r is Ok ==> r->Ok_0.wf(),
    {
        if self.initialized {
            return Err(InitializeError::AlreadyInitialized);
        }
        match derive_pool_addresses(&self.validator, program_id) {
            None => Err(InitializeError::NoValidAddress),
            Some(expected) => {
                let r = self.initialize_with_addresses(
                vote_data,
                rent_provided,
                rent_required,
                minimum_delegation,
                    supplied,
                    &expected,
                );
                assert(pool_addresses_derived(expected, self.validator@, program_id@));
                r
            },
        }
    }

    /// Folds `lamports` of delegated stake into the pool and mints the tokens
    /// they are worth. `expected_stake_account` is the pool's derived stake
    /// address; `stake_delegated` says whether the pool's stake is delegated.
    pub fn deposit_with_address(
        &self,
        supplied_stake_account: &[u8; 32],
        expected_stake_account: &[u8; 32],
        stake_delegated: bool,
        lamports: u64,
    ) -> (r: Result<(PoolState, u64), SinglePoolError>)
        ensures
            r == deposit_result(*self, supplied_stake_account@ == expected_stake_account@, stake_delegated, lamports),
            self.wf() && r is Ok ==> r->Ok_0.0.wf(),
            self.wf() && r is Ok ==> r->Ok_0.0.total_staked_lamports as int * self.token_supply
                >= self.total_staked_lamports as int * r->Ok_0.0.token_supply,
    {
        proof {
            if self.wf() {
                lemma_deposit_keeps_backing(*self, supplied_stake_account@ == expected_stake_account@, stake_delegated, lamports);
            }
        }
        if !same_address(supplied_stake_account, expected_stake_account) {
            return Err(SinglePoolError::InvalidPoolStakeAccount);
        }
        if !self.initialized || !stake_delegated {
            return Err(SinglePoolError::WrongStakeState);
        }
        let tokens = match self.lamports_to_tokens(lamports) {
            Ok(t) => t,
            Err(e) => {
                return Err(e);
            },
        };
        if tokens == 0 {
            return Err(SinglePoolError::DepositTooSmall);
        }
        if lamports > u64::MAX - self.total_staked_lamports || tokens > u64::MAX - self.token_supply {
            return Err(SinglePoolError::ArithmeticOverflow);
        }
        Ok((
            PoolState {
                total_staked_lamports: self.total_staked_lamports + lamports,
                token_supply: self.token_supply + tokens,
                ..*self
            },
            tokens,
        ))
    }

    /// Folds `lamports` of delegated stake into the pool, checking the
    /// supplied stake account against the one derived under `program_id`, and
    /// proceeds as `deposit_with_address` does.
    pub fn deposit(
        &self,
        program_id: &[u8; 32],
        supplied_stake_account: &[u8; 32],
        stake_delegated: bool,
        lamports: u64,
    ) -> (r: Result<(PoolState, u64), SinglePoolError>)
        ensures
            role_address(PoolRole::StakeAccount, self.validator@, program_id@) is None ==> r == Err::<
                (PoolState, u64),
                SinglePoolError,
            >(SinglePoolError::InvalidPoolStakeAccount),
            role_address(PoolRole::StakeAccount, self.validator@, program_id@) matches Some(expected) ==> r
                == deposit_result(*self, supplied_stake_account@ == expected, stake_delegated, lamports),
            self.wf() && r is Ok ==> r->Ok_0.0.wf(),
    {
        match derive_address(PoolRole::StakeAccount, &self.validator, program_id) {
            None => Err(SinglePoolError::InvalidPoolStakeAccount),
            Some(expected) => self.deposit_with_address(supplied_stake_account, &expected, stake_delegated, lamports),
        }
    }

    /// Burns `tokens` and splits off the lamports they are worth, leaving the
    /// pool at least `minimum_delegation` lamports. The holder of the tokens
    /// must have signed.
    pub fn withdraw(&self, authority_signed: bool, tokens: u64, minimum_delegation: u64) -> (r: Result<
        (PoolState, u64),
        SinglePoolError,
    >)
        ensures
            r == withdraw_result(*self, authority_signed, tokens, minimum_delegation),
            self.wf() && r is Ok ==> r->Ok_0.0.wf(),
            self.wf() && r is Ok ==> r->Ok_0.0.total_staked_lamports as int * self.token_supply
                >= self.total_staked_lamports as int * r->Ok_0.0.token_supply,
    {
        proof {
            if self.wf() {
                lemma_withdraw_keeps_backing(*self, authority_signed, tokens, minimum_delegation);
            }
        }
        if !authority_signed {
            return Err(SinglePoolError::SignatureMissing);
        }
        if !self.initialized {
            return Err(SinglePoolError::WrongStakeState);
        }
        if tokens > self.token_supply {
            return Err(SinglePoolError::ArithmeticOverflow);
        }
        let lamports = match self.tokens_to_lamports(tokens) {
            Ok(l) => l,
            Err(e) => {
                return Err(e);
            },
        };
        if lamports == 0 {
            return Err(SinglePoolError::WithdrawalTooSmall);
        }
        if lamports > self.total_staked_lamports {
            return Err(SinglePoolError::ArithmeticOverflow);
        }
        if self.total_staked_lamports - lamports < minimum_delegation {
            return Err(SinglePoolError::WrongStakeState);
        }
        Ok((
            PoolState {
                total_staked_lamports: self.total_staked_lamports - lamports,
                token_supply: self.token_supply - tokens,
                ..*self
            },
            lamports,
        ))
    }
}

/// Rounding never creates value: converting lamports to tokens and those
/// tokens back to lamports gives at most the lamports started with.
pub proof fn lemma_round_trip_never_creates_value(x: int, staked: int, supply: int)
    requires
        x >= 0,
        staked >= 0,
        supply > 0,
    ensures
        lamports_for_tokens(tokens_for_lamports(x, staked, supply), staked, supply) <= x,
{
    if !fresh_rate(staked, supply) {
        let t = x * supply / staked;
        assert(t * staked <= x * supply) by (nonlinear_arith)
            requires
                t == x * supply / staked,
                staked > 0,
        ;
        assert(t * staked / supply <= x) by (nonlinear_arith)
            requires
                t * staked <= x * supply,
                supply > 0,
                t >= 0,
                staked > 0,
        ;
    }
}

/// A successful deposit keeps the pool well formed and never lowers the
/// lamports that back each token (compared by cross-multiplication).
pub proof fn lemma_deposit_keeps_backing(s: PoolState, stake_address_matches: bool, stake_delegated: bool, lamports: u64)
    requires
        s.wf(),
    ensures
        deposit_result(s, stake_address_matches, stake_delegated, lamports) matches Ok((n, _)) ==> {
            &&& n.wf()
            &&& n.total_staked_lamports as int * s.token_supply >= s.total_staked_lamports as int * n.token_supply
        },
{
    let staked = s.total_staked_lamports as int;
    let supply = s.token_supply as int;
    if deposit_result(s, stake_address_matches, stake_delegated, lamports) is Ok && !fresh_rate(staked, supply) {
        let t = lamports * supply / staked;
        assert(t * staked <= lamports * supply) by (nonlinear_arith)
            requires
                t == lamports * supply / staked,
                staked > 0,
        ;
        assert((staked + lamports) * supply >= staked * (supply + t)) by (nonlinear_arith)
            requires
                t * staked <= lamports * supply,
        ;
    }
}

/// A successful withdrawal keeps the pool well formed and never lowers the
/// lamports that back each token (compared by cross-multiplication).
pub proof fn lemma_withdraw_keeps_backing(s: PoolState, authority_signed: bool, tokens: u64, minimum_delegation: u64)
    requires
        s.wf(),
    ensures
        withdraw_result(s, authority_signed, tokens, minimum_delegation) matches Ok((n, _)) ==> {
            &&& n.wf()
            &&& n.total_staked_lamports as int * s.token_supply >= s.total_staked_lamports as int * n.token_supply
        },
{
    let staked = s.total_staked_lamports as int;
    let supply = s.token_supply as int;
    let t = tokens as int;
    if withdraw_result(s, authority_signed, tokens, minimum_delegation) is Ok {
        if fresh_rate(staked, supply) {
            assert(staked == 0 && supply == 0);
        } else {
            let w = t * staked / supply;
            assert(w * supply <= t * staked) by (nonlinear_arith)
                requires
                    w == t * staked / supply,
                    supply > 0,
            ;
            assert((staked - w) * supply >= staked * (supply - t)) by (nonlinear_arith)
                requires
                    w * supply <= t * staked,
            ;
            // The last token takes the last lamport, and only it does.
            assert(w == staked ==> t == supply) by (nonlinear_arith)
                requires
                    w == t * staked / supply,
                    0 <= t <= supply,
                    staked > 0,
                    supply > 0,
            ;
            assert(t == supply ==> w == staked) by (nonlinear_arith)
                requires
                    w == t * staked / supply,
                    supply > 0,
            ;
        }
    }
}


/// One successful request on a pool: a deposit of lamports or a withdrawal
/// of tokens.
#[derive(Clone, Copy, Debug, PartialEq, Eq, Structural)]
pub enum PoolStep {
    Deposit { lamports: u64 },
    Withdraw { tokens: u64 },
}

/// The pool after `steps`, each made with the right accounts and signature,
/// or `None` where one of them is refused.
pub open spec fn run_steps(s: PoolState, steps: Seq<PoolStep>, minimum_delegation: u64) -> Option<PoolState>
    decreases steps.len(),
{
    if steps.len() == 0 {
        Some(s)
    } else {
        let next = match steps[0] {
            PoolStep::Deposit { lamports } => deposit_result(s, true, true, lamports),
            PoolStep::Withdraw { tokens } => withdraw_result(s, true, tokens, minimum_delegation),
        };
        match next {
            Ok((n, _)) => run_steps(n, steps.drop_first(), minimum_delegation),
            Err(_) => None,
        }
    }
}

/// After any sequence of successful deposits and withdrawals the pool is
/// still well formed, and the lamports backing each token have not gone
/// down (compared by cross-multiplication). The pool's minimum delegation
/// must be positive: a pool drained to nothing would restart at par.
pub proof fn lemma_backing_never_decreases(s: PoolState, steps: Seq<PoolStep>, minimum_delegation: u64)
    requires
        s.wf(),
        s.initialized ==> s.total_staked_lamports >= minimum_delegation,
        minimum_delegation > 0,
    ensures
        run_steps(s, steps, minimum_delegation) matches Some(e) ==> {
            &&& e.wf()
            &&& e.total_staked_lamports as int * s.token_supply >= s.total_staked_lamports as int * e.token_supply
        },
    decreases steps.len(),
{
    if steps.len() > 0 && run_steps(s, steps, minimum_delegation) is Some {
        let (n, stepped) = match steps[0] {
            PoolStep::Deposit { lamports } => {
                lemma_deposit_keeps_backing(s, true, true, lamports);
                (deposit_result(s, true, true, lamports)->Ok_0.0, deposit_result(s, true, true, lamports))
            },
            PoolStep::Withdraw { tokens } => {
                lemma_withdraw_keeps_backing(s, true, tokens, minimum_delegation);
                (withdraw_result(s, true, tokens, minimum_delegation)->Ok_0.0, withdraw_result(s, true, tokens, minimum_delegation))
            },
        };
        assert(stepped is Ok);
        assert(n.initialized);
        assert(n.total_staked_lamports >= minimum_delegation);
        lemma_backing_never_decreases(n, steps.drop_first(), minimum_delegation);
        let e = run_steps(s, steps, minimum_delegation)->Some_0;
        assert(run_steps(n, steps.drop_first(), minimum_delegation) == Some(e));
        let (sl, ss) = (s.total_staked_lamports as int, s.token_supply as int);
        let (nl, ns) = (n.total_staked_lamports as int, n.token_supply as int);
        let (el, es) = (e.total_staked_lamports as int, e.token_supply as int);
        assert(ns > 0);
        assert(el * ss >= sl * es) by (nonlinear_arith)
            requires
                nl * ss >= sl * ns,
                el * ns >= nl * es,
                ns > 0,
                ss >= 0,
                es >= 0,
                sl >= 0,
                nl >= 0,
                el >= 0,
        ;
    }
}

} // verus!
