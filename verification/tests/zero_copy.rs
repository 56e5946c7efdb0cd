use wormhole_bridge::errors::BridgeError;
use wormhole_bridge::keys::Pubkey;
use wormhole_bridge::token_account::{AccountState, TokenAccount};

fn sample_data() -> Vec<u8> {
    let mut d = vec![0u8; 165];
    // mint
    d[0..32].copy_from_slice(&[5u8; 32]);
    // owner
    d[32..64].copy_from_slice(&[6u8; 32]);
    // amount
    d[64..72].copy_from_slice(&77_000u64.to_le_bytes());
    // delegate: present
    d[72..76].copy_from_slice(&1u32.to_le_bytes());
    d[76..108].copy_from_slice(&[7u8; 32]);
    // state: initialized
    d[108] = 1;
    // native account with a rent-exempt reserve
    d[109..113].copy_from_slice(&1u32.to_le_bytes());
    d[113..121].copy_from_slice(&2_039_280u64.to_le_bytes());
    // delegated amount
    d[121..129].copy_from_slice(&500u64.to_le_bytes());
    // no close authority
    d[129..133].copy_from_slice(&0u32.to_le_bytes());
    d
}

#[test]
fn accessors_read_their_fixed_offsets() {
    let token_program = Pubkey::new([9u8; 32]);
    let data = sample_data();
    let acc = TokenAccount::load(&token_program, &token_program, &data).unwrap();
    assert_eq!(acc.mint().to_bytes(), [5u8; 32]);
    assert_eq!(acc.owner().to_bytes(), [6u8; 32]);
    assert_eq!(acc.amount(), 77_000);
    assert_eq!(acc.delegate().unwrap().to_bytes(), [7u8; 32]);
    assert_eq!(acc.state(), AccountState::Initialized);
    assert_eq!(acc.is_native(), Some(2_039_280));
    assert_eq!(acc.delegated_amount(), 500);
    assert!(acc.close_authority().is_none());
}

#[test]
fn frozen_state_and_absent_options_parse() {
    let token_program = Pubkey::new([9u8; 32]);
    let mut data = sample_data();
    data[108] = 2;
    // clear the delegate and native tags
    data[72..76].copy_from_slice(&0u32.to_le_bytes());
    data[109..113].copy_from_slice(&0u32.to_le_bytes());
    // set a close authority
    data[129..133].copy_from_slice(&1u32.to_le_bytes());
    data[133..165].copy_from_slice(&[3u8; 32]);
    let acc = TokenAccount::load(&token_program, &token_program, &data).unwrap();
    assert_eq!(acc.state(), AccountState::Frozen);
    assert!(acc.delegate().is_none());
    assert!(acc.is_native().is_none());
    assert_eq!(acc.close_authority().unwrap().to_bytes(), [3u8; 32]);
}

#[test]
fn load_rejects_a_foreign_owner() {
    let token_program = Pubkey::new([9u8; 32]);
    let other = Pubkey::new([10u8; 32]);
    let data = sample_data();
    let denied = TokenAccount::load(&other, &token_program, &data);
    assert_eq!(
        denied.err(),
        Some(BridgeError::ConstraintTokenTokenProgram)
    );
}

#[test]
fn load_rejects_the_wrong_length() {
    let token_program = Pubkey::new([9u8; 32]);
    let mut data = sample_data();
    data.pop();
    let denied = TokenAccount::load(&token_program, &token_program, &data);
    assert_eq!(denied.err(), Some(BridgeError::AccountDidNotDeserialize));
}

#[test]
fn load_rejects_uninitialized_and_invalid_states() {
    let token_program = Pubkey::new([9u8; 32]);
    let mut data = sample_data();
    data[108] = 0;
    let denied = TokenAccount::load(&token_program, &token_program, &data);
    assert_eq!(denied.err(), Some(BridgeError::AccountNotInitialized));
    data[108] = 3;
    let denied = TokenAccount::load(&token_program, &token_program, &data);
    assert_eq!(denied.err(), Some(BridgeError::AccountDidNotDeserialize));
}
