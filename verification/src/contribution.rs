//! The contribution program: a contribution pool bound to a fundraiser vault
//! and a token mint, per-user contributor records, and the token movements
//! between a contributor, the pool's token vault and the fundraiser vault.
//!
//! Token accounts are modelled by what the token program itself keeps of them:
//! mint, owner and balance.  A transfer debits one account and credits
//! another, conserves their combined balance, and fails atomically — exactly
//! the contract the cross-program call to the token program provides, which
//! the host runtime performs on the real ledger.

use crate::address::Address;
use vstd::prelude::*;

verus! {

/// Errors of the contribution program.
#[derive(Clone, Copy, Debug, PartialEq, Eq, Structural)]
pub enum ErrorCode {
    /// A movement asks for more tokens than its source holds, or for more
    /// yield than the pool has deposits to cover.
    InsufficientFundUnstake,
    /// A transfer of zero tokens.
    AmountMustBeGreaterThanZero,
    /// Two accounts that must carry the same mint do not.
    MintMismatch,
    /// The signing authority does not own the account it spends from.
    InvalidAuthority,
    /// A balance or counter update would overflow.
    Overflow,
}

/// A token account as the token program keeps it: which mint it holds, who
/// may spend it, and its balance.
#[derive(Clone, Copy, Debug)]
pub struct TokenAccount {
    pub mint: Address,
    pub owner: Address,
    pub amount: u64,
}

/// One fundraising campaign's pool: running totals and the addresses it was
/// bound to at initialization.
#[derive(Clone, Copy, Debug)]
pub struct ContributionPool {
    pub total_deposited: u64,
    pub total_contributed: u64,
    pub fundraiser_vault: Address,
    pub token_mint: Address,
    pub token_vault: Address,
    pub user_deposit_count: u64,
    pub nonce: u8,
}

impl ContributionPool {
    /// The pool's invariant: yield swept to the fundraiser never exceeds what
    /// was deposited.
    pub open spec fn wf(self) -> bool {
        self.total_contributed <= self.total_deposited
    }
}

/// One user's record in a pool.
#[derive(Clone, Copy, Debug)]
pub struct Contributor {
    pub contribution_pool: Address,
    pub authority: Address,
    pub contributed: u64,
    pub nonce: u8,
}

/// The first check a token transfer fails on, if any: a positive amount, a
/// shared mint, the source's owner signing, a covered debit, and a credit
/// that fits.
pub open spec fn transfer_err(
    from: TokenAccount,
    to: TokenAccount,
    authority: Seq<u8>,
    amount: u64,
) -> Option<ErrorCode> {
    if amount == 0 {
        Some(ErrorCode::AmountMustBeGreaterThanZero)
    } else if from.mint@ != to.mint@ {
        Some(ErrorCode::MintMismatch)
    } else if from.owner@ != authority {
        Some(ErrorCode::InvalidAuthority)
    } else if amount > from.amount {
        Some(ErrorCode::InsufficientFundUnstake)
    } else if to.amount + amount > u64::MAX {
        Some(ErrorCode::Overflow)
    } else {
        None
    }
}

/// Moves `amount` tokens from `from` to `to` under the authority's signature.
/// On success the combined balance of the two accounts is conserved; on any
/// failure neither balance changes.
pub fn token_transfer(
    from: &mut TokenAccount,
    to: &mut TokenAccount,
    authority: &Address,
    amount: u64,
) -> (r: Result<(), ErrorCode>)
    ensures
        match transfer_err(*old(from), *old(to), authority@, amount) {
            Some(e) => r == Err::<(), ErrorCode>(e) && *final(from) == *old(from) && *final(to)
                == *old(to),
            None => {
                &&& r is Ok
                &&& final(from).amount == old(from).amount - amount
                &&& final(to).amount == old(to).amount + amount
                &&& final(from).mint == old(from).mint
                &&& final(from).owner == old(from).owner
                &&& final(to).mint == old(to).mint
                &&& final(to).owner == old(to).owner
            },
        },
        final(from).amount + final(to).amount == old(from).amount + old(to).amount,
{
    if amount == 0 {
        return Err(ErrorCode::AmountMustBeGreaterThanZero);
    }
    if !from.mint.same(&to.mint) {
        return Err(ErrorCode::MintMismatch);
    }
    if !from.owner.same(authority) {
        return Err(ErrorCode::InvalidAuthority);
    }
    if amount > from.amount {
        return Err(ErrorCode::InsufficientFundUnstake);
    }
    if amount > u64::MAX - to.amount {
        return Err(ErrorCode::Overflow);
    }
    from.amount = from.amount - amount;
    to.amount = to.amount + amount;
    Ok(())
}

/// The first check `initialize` fails on, if any: the pool's token vault and
/// the fundraiser's contribution vault must carry the pool's mint, the token
/// vault must belong to the signer, and the contribution vault to the
/// fundraiser.
pub open spec fn initialize_err(
    token_mint: Seq<u8>,
    token_vault: TokenAccount,
    contribution_vault: TokenAccount,
    signer: Seq<u8>,
    fundraiser_account: Seq<u8>,
) -> Option<ErrorCode> {
    if token_vault.mint@ != token_mint {
        Some(ErrorCode::MintMismatch)
    } else if token_vault.owner@ != signer {
        Some(ErrorCode::InvalidAuthority)
    } else if contribution_vault.mint@ != token_mint {
        Some(ErrorCode::MintMismatch)
    } else if contribution_vault.owner@ != fundraiser_account {
        Some(ErrorCode::InvalidAuthority)
    } else {
        None
    }
}

/// Zero-initializes a contribution pool bound to a fundraiser account, a
/// token mint and a token vault, after checking the accounts' relationships.
pub fn initialize(
    token_mint: &Address,
    token_vault: &TokenAccount,
    token_vault_key: &Address,
    contribution_vault: &TokenAccount,
    signer: &Address,
    fundraiser_account: &Address,
    nonce: u8,
) -> (r: Result<ContributionPool, ErrorCode>)
    ensures
        match initialize_err(
            token_mint@,
            *token_vault,
            *contribution_vault,
            signer@,
            fundraiser_account@,
        ) {
            Some(e) => r == Err::<ContributionPool, ErrorCode>(e),
            None => {
                &&& r matches Ok(p)
                &&& p.total_deposited == 0
                &&& p.total_contributed == 0
                &&& p.fundraiser_vault == *fundraiser_account
                &&& p.token_mint == *token_mint
                &&& p.token_vault == *token_vault_key
                &&& p.user_deposit_count == 0
                &&& p.nonce == nonce
                &&& p.wf()
            },
        },
{
    if !token_vault.mint.same(token_mint) {
        return Err(ErrorCode::MintMismatch);
    }
    if !token_vault.owner.same(signer) {
        return Err(ErrorCode::InvalidAuthority);
    }
    if !contribution_vault.mint.same(token_mint) {
        return Err(ErrorCode::MintMismatch);
    }
    if !contribution_vault.owner.same(fundraiser_account) {
        return Err(ErrorCode::InvalidAuthority);
    }
    Ok(
        ContributionPool {
            total_deposited: 0,
            total_contributed: 0,
            fundraiser_vault: *fundraiser_account,
            token_mint: *token_mint,
            token_vault: *token_vault_key,
            user_deposit_count: 0,
            nonce,
        },
    )
}

/// Registers a contributor for a pool: a fresh record bound to the pool and
/// the authority with a zero running total, and the pool's deposit counter
/// stepped by one.
pub fn create_contributor(
    pool: &mut ContributionPool,
    pool_key: &Address,
    authority: &Address,
    nonce: u8,
) -> (r: Result<Contributor, ErrorCode>)
    requires
        old(pool).wf(),
    ensures
        old(pool).user_deposit_count == u64::MAX ==> r == Err::<Contributor, ErrorCode>(
            ErrorCode::Overflow,
        ) && *final(pool) == *old(pool),
        old(pool).user_deposit_count < u64::MAX ==> ({
            &&& r matches Ok(c)
            &&& c.contribution_pool == *pool_key
            &&& c.authority == *authority
            &&& c.contributed == 0
            &&& c.nonce == nonce
            &&& final(pool).user_deposit_count == old(pool).user_deposit_count + 1
            &&& final(pool).total_deposited == old(pool).total_deposited
            &&& final(pool).total_contributed == old(pool).total_contributed
            &&& final(pool).fundraiser_vault == old(pool).fundraiser_vault
            &&& final(pool).token_mint == old(pool).token_mint
            &&& final(pool).token_vault == old(pool).token_vault
            &&& final(pool).nonce == old(pool).nonce
        }),
        final(pool).wf(),
{
    if pool.user_deposit_count == u64::MAX {
        return Err(ErrorCode::Overflow);
    }
    pool.user_deposit_count = pool.user_deposit_count + 1;
    Ok(
        Contributor {
            contribution_pool: *pool_key,
            authority: *authority,
            contributed: 0,
            nonce,
        },
    )
}

/// Moves a contribution straight from the contributor's token account into
/// the fundraiser vault; the contributor signs the transfer.  The pool's own
/// counters are untouched, as this path never passes through the lending
/// deposit.
pub fn standard_contribution(
    contributor_token: &mut TokenAccount,
    fundraiser_vault: &mut TokenAccount,
    contributor: &Address,
    amount: u64,
) -> (r: Result<(), ErrorCode>)
    ensures
        match transfer_err(*old(contributor_token), *old(fundraiser_vault), contributor@, amount) {
            Some(e) => r == Err::<(), ErrorCode>(e) && *final(contributor_token) == *old(
                contributor_token,
            ) && *final(fundraiser_vault) == *old(fundraiser_vault),
            None => {
                &&& r is Ok
                &&& final(contributor_token).amount == old(contributor_token).amount - amount
                &&& final(fundraiser_vault).amount == old(fundraiser_vault).amount + amount
                &&& final(contributor_token).mint == old(contributor_token).mint
                &&& final(contributor_token).owner == old(contributor_token).owner
                &&& final(fundraiser_vault).mint == old(fundraiser_vault).mint
                &&& final(fundraiser_vault).owner == old(fundraiser_vault).owner
            },
        },
        final(contributor_token).amount + final(fundraiser_vault).amount == old(
            contributor_token,
        ).amount + old(fundraiser_vault).amount,
{
    token_transfer(contributor_token, fundraiser_vault, contributor, amount)
}

/// The first check `deposit` fails on, if any: both token accounts must carry
/// the pool's mint, the counters must have room, and the transfer's own
/// checks must pass.
pub open spec fn deposit_err(
    pool: ContributionPool,
    contributor: Contributor,
    sender_token: TokenAccount,
    receiver_token: TokenAccount,
    authority: Seq<u8>,
    amount: u64,
) -> Option<ErrorCode> {
    if sender_token.mint@ != pool.token_mint@ {
        Some(ErrorCode::MintMismatch)
    } else if receiver_token.mint@ != pool.token_mint@ {
        Some(ErrorCode::MintMismatch)
    } else if pool.total_deposited + amount > u64::MAX {
        Some(ErrorCode::Overflow)
    } else if contributor.contributed + amount > u64::MAX {
        Some(ErrorCode::Overflow)
    } else {
        transfer_err(sender_token, receiver_token, authority, amount)
    }
}

/// Moves contributed funds into the pool's token vault on their way to the
/// lending market: transfers `amount` from the contributor's account to the
/// receiving vault, and books it on the pool's deposit total and the
/// contributor's running total.  On any failure nothing changes.
pub fn deposit(
    pool: &mut ContributionPool,
    contributor: &mut Contributor,
    sender_token: &mut TokenAccount,
    receiver_token: &mut TokenAccount,
    authority: &Address,
    amount: u64,
    nonce: u8,
) -> (r: Result<(), ErrorCode>)
    requires
        old(pool).wf(),
    ensures
        match deposit_err(
            *old(pool),
            *old(contributor),
            *old(sender_token),
            *old(receiver_token),
            authority@,
            amount,
        ) {
            Some(e) => {
                &&& r == Err::<(), ErrorCode>(e)
                &&& *final(pool) == *old(pool)
                &&& *final(contributor) == *old(contributor)
                &&& *final(sender_token) == *old(sender_token)
                &&& *final(receiver_token) == *old(receiver_token)
            },
            None => {
                &&& r is Ok
                &&& final(sender_token).amount == old(sender_token).amount - amount
                &&& final(receiver_token).amount == old(receiver_token).amount + amount
                &&& final(pool).total_deposited == old(pool).total_deposited + amount
                &&& final(contributor).contributed == old(contributor).contributed + amount
                &&& final(pool).total_contributed == old(pool).total_contributed
                &&& final(pool).user_deposit_count == old(pool).user_deposit_count
                &&& final(pool).fundraiser_vault == old(pool).fundraiser_vault
                &&& final(pool).token_mint == old(pool).token_mint
                &&& final(pool).token_vault == old(pool).token_vault
                &&& final(pool).nonce == old(pool).nonce
                &&& final(contributor).contribution_pool == old(contributor).contribution_pool
                &&& final(contributor).authority == old(contributor).authority
                &&& final(contributor).nonce == old(contributor).nonce
                &&& final(sender_token).mint == old(sender_token).mint
                &&& final(sender_token).owner == old(sender_token).owner
                &&& final(receiver_token).mint == old(receiver_token).mint
                &&& final(receiver_token).owner == old(receiver_token).owner
            },
        },
        final(sender_token).amount + final(receiver_token).amount == old(sender_token).amount + old(
            receiver_token,
        ).amount,
        final(pool).wf(),
{
    let _ = nonce;
    if !sender_token.mint.same(&pool.token_mint) {
        return Err(ErrorCode::MintMismatch);
    }
    if !receiver_token.mint.same(&pool.token_mint) {
        return Err(ErrorCode::MintMismatch);
    }
    if amount > u64::MAX - pool.total_deposited {
        return Err(ErrorCode::Overflow);
    }
    if amount > u64::MAX - contributor.contributed {
        return Err(ErrorCode::Overflow);
    }
    let transferred = token_transfer(sender_token, receiver_token, authority, amount);
    match transferred {
        Ok(()) => {
            pool.total_deposited = pool.total_deposited + amount;
            contributor.contributed = contributor.contributed + amount;
            Ok(())
        },
        Err(e) => Err(e),
    }
}

/// The first check `contribute` fails on, if any: both accounts must carry
/// the pool's mint, the swept yield must stay within what was deposited, the
/// new contributed total must fit, and the transfer's own checks must pass.
pub open spec fn contribute_err(
    pool: ContributionPool,
    token_vault: TokenAccount,
    fundraiser_vault: TokenAccount,
    authority: Seq<u8>,
    amount: u64,
) -> Option<ErrorCode> {
    if token_vault.mint@ != pool.token_mint@ {
        Some(ErrorCode::MintMismatch)
    } else if pool.total_contributed + amount > pool.total_deposited {
        Some(ErrorCode::InsufficientFundUnstake)
    } else {
        transfer_err(token_vault, fundraiser_vault, authority, amount)
    }
}

/// Sweeps lending yield from the pool's token vault into the fundraiser
/// vault and books it on the pool's contributed total.  The sweep is capped
/// by the pool's deposits, so the pool's invariant is kept; on any failure
/// nothing changes.
pub fn contribute(
    pool: &mut ContributionPool,
    token_vault: &mut TokenAccount,
    fundraiser_vault: &mut TokenAccount,
    authority: &Address,
    amount: u64,
    nonce: u8,
) -> (r: Result<(), ErrorCode>)
    requires
        old(pool).wf(),
    ensures
        match contribute_err(
            *old(pool),
            *old(token_vault),
            *old(fundraiser_vault),
            authority@,
            amount,
        ) {
            Some(e) => {
                &&& r == Err::<(), ErrorCode>(e)
                &&& *final(pool) == *old(pool)
                &&& *final(token_vault) == *old(token_vault)
                &&& *final(fundraiser_vault) == *old(fundraiser_vault)
            },
            None => {
                &&& r is Ok
                &&& final(token_vault).amount == old(token_vault).amount - amount
                &&& final(fundraiser_vault).amount == old(fundraiser_vault).amount + amount
                &&& final(pool).total_contributed == old(pool).total_contributed + amount
                &&& final(pool).total_deposited == old(pool).total_deposited
                &&& final(pool).user_deposit_count == old(pool).user_deposit_count
                &&& final(pool).fundraiser_vault == old(pool).fundraiser_vault
                &&& final(pool).token_mint == old(pool).token_mint
                &&& final(pool).token_vault == old(pool).token_vault
                &&& final(pool).nonce == old(pool).nonce
                &&& final(token_vault).mint == old(token_vault).mint
                &&& final(token_vault).owner == old(token_vault).owner
                &&& final(fundraiser_vault).mint == old(fundraiser_vault).mint
                &&& final(fundraiser_vault).owner == old(fundraiser_vault).owner
            },
        },
        final(token_vault).amount + final(fundraiser_vault).amount == old(token_vault).amount + old(
            fundraiser_vault,
        ).amount,
        final(pool).wf(),
{
    let _ = nonce;
    if !token_vault.mint.same(&pool.token_mint) {
        return Err(ErrorCode::MintMismatch);
    }
    if amount > pool.total_deposited || pool.total_contributed > pool.total_deposited - amount {
        return Err(ErrorCode::InsufficientFundUnstake);
    }
    let transferred = token_transfer(token_vault, fundraiser_vault, authority, amount);
    match transferred {
        Ok(()) => {
            pool.total_contributed = pool.total_contributed + amount;
            Ok(())
        },
        Err(e) => Err(e),
    }
}

} // verus!
