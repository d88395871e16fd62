use anchor_lang::solana_program::pubkey::Pubkey;
use mobius_programs::address::Address;
use mobius_programs::fundraiser::{initialize, createfundraiser, withdraw, Errors, FundraiserState};

fn addr(b: u8) -> Address {
    Address::new([b; 32])
}

/// The canonical update-account derivation, computed with the same outside
/// crate the library calls.
fn canonical(authority: &Address, program_id: &Address) -> (Address, u8) {
    let pid = Pubkey::new_from_array(program_id.bytes);
    let (pda, bump) = Pubkey::find_program_address(
        &[b"ILikeTurtles", &authority.bytes],
        &pid,
    );
    (Address::new(pda.to_bytes()), bump)
}

fn fresh_state(authority: &Address, program_id: &Address) -> (FundraiserState, Address, u8) {
    let (key, bump) = canonical(authority, program_id);
    let state = initialize(&key, bump, authority, program_id).unwrap();
    (state, key, bump)
}

#[test]
fn initialize_accepts_canonical_derivation() {
    let authority = addr(7);
    let program_id = addr(9);
    let (key, bump) = canonical(&authority, &program_id);
    let state = initialize(&key, bump, &authority, &program_id).unwrap();
    assert_eq!(state.fundraiser_data.len(), 0);
    assert_eq!(state.withdraw_order.len(), 0);
    assert_eq!(state.raised, 0);
    assert_eq!(state.bump, bump);
    assert_eq!(state.authority.bytes, authority.bytes);
}

#[test]
fn initialize_rejects_wrong_bump() {
    let authority = addr(7);
    let program_id = addr(9);
    let (key, bump) = canonical(&authority, &program_id);
    let off = if bump == 0 { 1 } else { bump - 1 };
    let r = initialize(&key, off, &authority, &program_id);
    assert!(matches!(r, Err(Errors::InvalidAuthority)));
}

#[test]
fn initialize_rejects_foreign_account() {
    let authority = addr(7);
    let program_id = addr(9);
    let (_, bump) = canonical(&authority, &program_id);
    let r = initialize(&addr(42), bump, &authority, &program_id);
    assert!(matches!(r, Err(Errors::InvalidAuthority)));
}

#[test]
fn createfundraiser_accepts_boundary_lengths() {
    let authority = addr(3);
    let program_id = addr(4);
    let (mut state, key, bump) = fresh_state(&authority, &program_id);
    let name = "n".repeat(30);
    let description = "d".repeat(150);
    let r = createfundraiser(
        &mut state,
        &authority,
        &program_id,
        &key,
        name.clone(),
        description.clone(),
        String::from("ipfs://image"),
        bump,
    );
    assert!(r.is_ok());
    assert_eq!(state.fundraiser_data.len(), 1);
    assert_eq!(state.fundraiser_data[0].name, name);
    assert_eq!(state.fundraiser_data[0].description, description);
    assert_eq!(state.fundraiser_data[0].image, "ipfs://image");
    assert_eq!(state.fundraiser_data[0].owner.bytes, authority.bytes);
    assert_eq!(state.fundraiser_data[0].raised, 0);
    assert_eq!(state.fundraiser_data[0].bump, bump);
}

#[test]
fn createfundraiser_rejects_long_name() {
    let authority = addr(3);
    let program_id = addr(4);
    let (mut state, key, bump) = fresh_state(&authority, &program_id);
    let r = createfundraiser(
        &mut state,
        &authority,
        &program_id,
        &key,
        "n".repeat(31),
        String::from("short"),
        String::new(),
        bump,
    );
    assert!(matches!(r, Err(Errors::NameTooLong)));
    assert_eq!(state.fundraiser_data.len(), 0);
}

#[test]
fn createfundraiser_rejects_long_description() {
    let authority = addr(3);
    let program_id = addr(4);
    let (mut state, key, bump) = fresh_state(&authority, &program_id);
    let r = createfundraiser(
        &mut state,
        &authority,
        &program_id,
        &key,
        String::from("short"),
        "d".repeat(151),
        String::new(),
        bump,
    );
    assert!(matches!(r, Err(Errors::DescriptionTooLong)));
    assert_eq!(state.fundraiser_data.len(), 0);
}

#[test]
fn createfundraiser_rejects_bump_off_by_one() {
    let authority = addr(3);
    let program_id = addr(4);
    let (mut state, key, bump) = fresh_state(&authority, &program_id);
    let off = if bump == 0 { 1 } else { bump - 1 };
    let r = createfundraiser(
        &mut state,
        &authority,
        &program_id,
        &key,
        String::from("name"),
        String::from("description"),
        String::new(),
        off,
    );
    assert!(matches!(r, Err(Errors::InvalidAuthority)));
    assert_eq!(state.fundraiser_data.len(), 0);
}

#[test]
fn createfundraiser_rejects_foreign_update_account() {
    let authority = addr(3);
    let program_id = addr(4);
    let (mut state, _, bump) = fresh_state(&authority, &program_id);
    let r = createfundraiser(
        &mut state,
        &authority,
        &program_id,
        &addr(42),
        String::from("name"),
        String::from("description"),
        String::new(),
        bump,
    );
    assert!(matches!(r, Err(Errors::InvalidAuthority)));
    assert_eq!(state.fundraiser_data.len(), 0);
}

#[test]
fn createfundraiser_rejects_wrong_authority() {
    let authority = addr(3);
    let program_id = addr(4);
    let (mut state, key, bump) = fresh_state(&authority, &program_id);
    let intruder = addr(5);
    let r = createfundraiser(
        &mut state,
        &intruder,
        &program_id,
        &key,
        String::from("name"),
        String::from("description"),
        String::new(),
        bump,
    );
    assert!(matches!(r, Err(Errors::InvalidAuthority)));
    assert_eq!(state.fundraiser_data.len(), 0);
}

#[test]
fn withdraw_debits_both_and_records_order() {
    let authority = addr(11);
    let program_id = addr(12);
    let (mut state, key, bump) = fresh_state(&authority, &program_id);
    let mut update_lamports: u64 = 500;
    let mut authority_lamports: u64 = 300;
    let r = withdraw(
        &mut state,
        &mut update_lamports,
        &mut authority_lamports,
        &authority,
        &program_id,
        &key,
        200,
        bump,
    );
    assert!(r.is_ok());
    assert_eq!(update_lamports, 300);
    assert_eq!(authority_lamports, 100);
    assert_eq!(state.withdraw_order.len(), 1);
    assert_eq!(state.withdraw_order[0].withdraw_amount, 200);
    assert_eq!(state.withdraw_order[0].beneficiary.bytes, authority.bytes);
}

#[test]
fn withdraw_rejects_uncovered_amount() {
    let authority = addr(11);
    let program_id = addr(12);
    let (mut state, key, bump) = fresh_state(&authority, &program_id);
    let mut update_lamports: u64 = 500;
    let mut authority_lamports: u64 = 100;
    let r = withdraw(
        &mut state,
        &mut update_lamports,
        &mut authority_lamports,
        &authority,
        &program_id,
        &key,
        200,
        bump,
    );
    assert!(matches!(r, Err(Errors::InsufficientFunds)));
    assert_eq!(update_lamports, 500);
    assert_eq!(authority_lamports, 100);
    assert_eq!(state.withdraw_order.len(), 0);
}

#[test]
fn withdraw_rejects_bump_off_by_one() {
    let authority = addr(11);
    let program_id = addr(12);
    let (mut state, key, bump) = fresh_state(&authority, &program_id);
    let off = if bump == 0 { 1 } else { bump - 1 };
    let mut update_lamports: u64 = 500;
    let mut authority_lamports: u64 = 300;
    let r = withdraw(
        &mut state,
        &mut update_lamports,
        &mut authority_lamports,
        &authority,
        &program_id,
        &key,
        200,
        off,
    );
    assert!(matches!(r, Err(Errors::InvalidAuthority)));
    assert_eq!(update_lamports, 500);
    assert_eq!(authority_lamports, 300);
    assert_eq!(state.withdraw_order.len(), 0);
}
