//! The fundraiser program: a per-authority update account holding fundraiser
//! records and an append-only trail of withdrawal orders.
//!
//! The update account lives at a program-derived address over a fixed seed and
//! the authority's key; every instruction that touches it re-derives that
//! address and rejects a mismatched account or bump before doing anything.

use crate::address::{derived_address, find_program_address, Address};
use vstd::prelude::*;

verus! {

/// Longest accepted fundraiser name, in characters.
pub const NAME_MAX: usize = 30;

/// Longest accepted fundraiser description, in characters.
pub const DESCRIPTION_MAX: usize = 150;

/// Errors of the fundraiser program.
#[derive(Clone, Copy, Debug, PartialEq, Eq, Structural)]
pub enum Errors {
    /// The update account, its bump, or the signing authority does not match
    /// the canonical derivation.
    InvalidAuthority,
    /// The fundraiser name is longer than `NAME_MAX` characters.
    NameTooLong,
    /// The fundraiser description is longer than `DESCRIPTION_MAX` characters.
    DescriptionTooLong,
    /// A withdrawal asks for more lamports than a debited balance holds.
    InsufficientFunds,
}

/// One registered fundraiser, immutable once appended.
#[derive(Clone, Debug)]
pub struct FundraiserData {
    pub owner: Address,
    pub name: String,
    pub description: String,
    pub image: String,
    pub raised: u64,
    pub bump: u8,
}

/// One withdrawal against raised funds, kept as an audit record.
#[derive(Clone, Copy, Debug)]
pub struct WithdrawOrder {
    pub withdraw_amount: u64,
    pub beneficiary: Address,
}

/// The authority's update account: fundraiser records, the cumulative raised
/// amount, the account's own bump, and the withdrawal trail.
#[derive(Clone, Debug)]
pub struct FundraiserState {
    pub fundraiser_data: Vec<FundraiserData>,
    pub raised: u64,
    pub bump: u8,
    pub authority: Address,
    pub withdraw_order: Vec<WithdrawOrder>,
}

/// The fixed seed that, joined with the authority's key, derives the update
/// account: the ASCII bytes of `"ILikeTurtles"`.
pub open spec fn update_seed() -> Seq<u8> {
    seq![73u8, 76u8, 105u8, 107u8, 101u8, 84u8, 117u8, 114u8, 116u8, 108u8, 101u8, 115u8]
}

/// The canonical update-account derivation for an authority under a program.
pub open spec fn update_pda(authority: Seq<u8>, program_id: Seq<u8>) -> Option<(Seq<u8>, u8)> {
    derived_address(seq![update_seed(), authority], program_id)
}

/// The supplied update-account key and bump both match the canonical
/// derivation for this authority.
pub open spec fn pda_matches(
    update_account_key: Seq<u8>,
    bump: u8,
    authority: Seq<u8>,
    program_id: Seq<u8>,
) -> bool {
    match update_pda(authority, program_id) {
        Some(p) => p.0 == update_account_key && p.1 == bump,
        None => false,
    }
}

fn update_seed_bytes() -> (r: Vec<u8>)
    ensures
        r@ == update_seed(),
{
    let mut v: Vec<u8> = Vec::new();
    v.push(73);
    v.push(76);
    v.push(105);
    v.push(107);
    v.push(101);
    v.push(84);
    v.push(117);
    v.push(114);
    v.push(116);
    v.push(108);
    v.push(101);
    v.push(115);
    proof {
        assert(v@ =~= update_seed());
    }
    v
}

/// Re-derives the update account for `authority` and compares the supplied
/// account key and bump against the derivation.
fn check_update_pda(
    update_account_key: &Address,
    bump: u8,
    authority: &Address,
    program_id: &Address,
) -> (r: bool)
    ensures
        r == pda_matches(update_account_key@, bump, authority@, program_id@),
{
    let mut seeds: Vec<Vec<u8>> = Vec::new();
    seeds.push(update_seed_bytes());
    seeds.push(authority.to_vec());
    proof {
        assert(seeds.deep_view() =~~= seq![update_seed(), authority@]);
    }
    match find_program_address(&seeds, program_id) {
        Some(p) => p.0.same(update_account_key) && p.1 == bump,
        None => false,
    }
}

/// Creates the authority's update account: the supplied account key and bump
/// must be the canonical derivation for this authority, and the fresh state
/// starts with empty record lists and a zero raised total.
pub fn initialize(
    update_account_key: &Address,
    update_account_bump: u8,
    authority: &Address,
    program_id: &Address,
) -> (r: Result<FundraiserState, Errors>)
    ensures
        pda_matches(update_account_key@, update_account_bump, authority@, program_id@) ==> ({
            &&& r matches Ok(s)
            &&& s.fundraiser_data@.len() == 0
            &&& s.raised == 0
            &&& s.bump == update_account_bump
            &&& s.authority == *authority
            &&& s.withdraw_order@.len() == 0
        }),
        !pda_matches(update_account_key@, update_account_bump, authority@, program_id@) ==> r
            == Err::<FundraiserState, Errors>(Errors::InvalidAuthority),
{
    if !check_update_pda(update_account_key, update_account_bump, authority, program_id) {
        return Err(Errors::InvalidAuthority);
    }
    Ok(
        FundraiserState {
            fundraiser_data: Vec::new(),
            raised: 0,
            bump: update_account_bump,
            authority: *authority,
            withdraw_order: Vec::new(),
        },
    )
}

/// The first check `createfundraiser` fails on, if any: the signing authority
/// must own the update account, the account and bump must match the canonical
/// derivation, and the name and description must fit their limits.
pub open spec fn createfundraiser_err(
    state: FundraiserState,
    authority: Seq<u8>,
    program_id: Seq<u8>,
    update_account_key: Seq<u8>,
    name: Seq<char>,
    description: Seq<char>,
    bump: u8,
) -> Option<Errors> {
    if state.authority@ != authority {
        Some(Errors::InvalidAuthority)
    } else if !pda_matches(update_account_key, bump, authority, program_id) {
        Some(Errors::InvalidAuthority)
    } else if name.len() > NAME_MAX {
        Some(Errors::NameTooLong)
    } else if description.len() > DESCRIPTION_MAX {
        Some(Errors::DescriptionTooLong)
    } else {
        None
    }
}

/// Appends a fundraiser record for the authority: rejects a spoofed update
/// account or bump, a name over `NAME_MAX` characters and a description over
/// `DESCRIPTION_MAX` characters; otherwise appends exactly one record with a
/// zero raised amount and leaves everything else unchanged.
pub fn createfundraiser(
    state: &mut FundraiserState,
    authority: &Address,
    program_id: &Address,
    update_account_key: &Address,
    name: String,
    description: String,
    image: String,
    update_account_bump: u8,
) -> (r: Result<(), Errors>)
    ensures
        match createfundraiser_err(
            *old(state),
            authority@,
            program_id@,
            update_account_key@,
            name@,
            description@,
            update_account_bump,
        ) {
            Some(e) => r == Err::<(), Errors>(e) && *final(state) == *old(state),
            None => {
                &&& r is Ok
                &&& final(state).fundraiser_data@.len() == old(state).fundraiser_data@.len() + 1
                &&& forall|i: int|
                    0 <= i < old(state).fundraiser_data@.len()
                        ==> final(state).fundraiser_data@[i] == old(state).fundraiser_data@[i]
                &&& final(state).fundraiser_data@.last().owner == *authority
                &&& final(state).fundraiser_data@.last().name@ == name@
                &&& final(state).fundraiser_data@.last().description@ == description@
                &&& final(state).fundraiser_data@.last().image@ == image@
                &&& final(state).fundraiser_data@.last().raised == 0
                &&& final(state).fundraiser_data@.last().bump == update_account_bump
                &&& final(state).raised == old(state).raised
                &&& final(state).bump == old(state).bump
                &&& final(state).authority == old(state).authority
                &&& final(state).withdraw_order@ == old(state).withdraw_order@
            },
        },
{
    if !state.authority.same(authority) {
        return Err(Errors::InvalidAuthority);
    }
    if !check_update_pda(update_account_key, update_account_bump, authority, program_id) {
        return Err(Errors::InvalidAuthority);
    }
    if name.as_str().unicode_len() > NAME_MAX {
        return Err(Errors::NameTooLong);
    }
    if description.as_str().unicode_len() > DESCRIPTION_MAX {
        return Err(Errors::DescriptionTooLong);
    }
    let record = FundraiserData {
        owner: *authority,
        name,
        description,
        image,
        raised: 0,
        bump: update_account_bump,
    };
    state.fundraiser_data.push(record);
    Ok(())
}

/// The first check `withdraw` fails on, if any: ownership and derivation as in
/// `createfundraiser`, then both debited balances must cover the amount.
pub open spec fn withdraw_err(
    state: FundraiserState,
    update_lamports: u64,
    authority_lamports: u64,
    authority: Seq<u8>,
    program_id: Seq<u8>,
    update_account_key: Seq<u8>,
    amount: u64,
    bump: u8,
) -> Option<Errors> {
    if state.authority@ != authority {
        Some(Errors::InvalidAuthority)
    } else if !pda_matches(update_account_key, bump, authority, program_id) {
        Some(Errors::InvalidAuthority)
    } else if amount > update_lamports || amount > authority_lamports {
        Some(Errors::InsufficientFunds)
    } else {
        None
    }
}

/// Law: an update account or bump that does not match the canonical
/// derivation for the signing authority is rejected with the
/// invalid-authority error by every instruction that validates the
/// derivation, whatever the rest of the inputs hold — never silently
/// accepted.
pub proof fn lemma_pda_mismatch_rejected(
    state: FundraiserState,
    update_lamports: u64,
    authority_lamports: u64,
    authority: Seq<u8>,
    program_id: Seq<u8>,
    update_account_key: Seq<u8>,
    name: Seq<char>,
    description: Seq<char>,
    amount: u64,
    bump: u8,
)
    requires
        !pda_matches(update_account_key, bump, authority, program_id),
    ensures
        createfundraiser_err(
            state,
            authority,
            program_id,
            update_account_key,
            name,
            description,
            bump,
        ) == Some(Errors::InvalidAuthority),
        withdraw_err(
            state,
            update_lamports,
            authority_lamports,
            authority,
            program_id,
            update_account_key,
            amount,
            bump,
        ) == Some(Errors::InvalidAuthority),
{
}

/// Issues a withdrawal order: rejects a spoofed update account or bump, then
/// debits `amount` lamports from the update account and from the authority
/// and appends one order naming the authority as beneficiary.  Both debits
/// must be covered or nothing changes.
pub fn withdraw(
    state: &mut FundraiserState,
    update_lamports: &mut u64,
    authority_lamports: &mut u64,
    authority: &Address,
    program_id: &Address,
    update_account_key: &Address,
    amount: u64,
    update_account_bump: u8,
) -> (r: Result<(), Errors>)
    ensures
        match withdraw_err(
            *old(state),
            *old(update_lamports),
            *old(authority_lamports),
            authority@,
            program_id@,
            update_account_key@,
            amount,
            update_account_bump,
        ) {
            Some(e) => {
                &&& r == Err::<(), Errors>(e)
                &&& *final(state) == *old(state)
                &&& *final(update_lamports) == *old(update_lamports)
                &&& *final(authority_lamports) == *old(authority_lamports)
            },
            None => {
                &&& r is Ok
                &&& *final(update_lamports) == *old(update_lamports) - amount
                &&& *final(authority_lamports) == *old(authority_lamports) - amount
                &&& final(state).withdraw_order@ == old(state).withdraw_order@.push(
                    (WithdrawOrder { withdraw_amount: amount, beneficiary: *authority }),
                )
                &&& final(state).fundraiser_data@ == old(state).fundraiser_data@
                &&& final(state).raised == old(state).raised
                &&& final(state).bump == old(state).bump
                &&& final(state).authority == old(state).authority
            },
        },
{
    if !state.authority.same(authority) {
        return Err(Errors::InvalidAuthority);
    }
    if !check_update_pda(update_account_key, update_account_bump, authority, program_id) {
        return Err(Errors::InvalidAuthority);
    }
    if amount > *update_lamports || amount > *authority_lamports {
        return Err(Errors::InsufficientFunds);
    }
    *update_lamports = *update_lamports - amount;
    *authority_lamports = *authority_lamports - amount;
    let order = WithdrawOrder { withdraw_amount: amount, beneficiary: *authority };
    state.withdraw_order.push(order);
    Ok(())
}

} // verus!
