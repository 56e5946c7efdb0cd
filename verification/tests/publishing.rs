use wormhole_bridge::config::Config;
use wormhole_bridge::errors::BridgeError;
use wormhole_bridge::keys::Pubkey;
use wormhole_bridge::message::{
    compute_prepared_message_space, Commitment, MessageAccount, MessageStatus,
};
use wormhole_bridge::post_message::{
    post_message_unreliable, PostMessageArgs, PostMessageUnreliable,
};
use wormhole_bridge::sequence::EmitterSequence;

fn fresh_accounts(
    emitter: Pubkey,
    fee: u64,
    payer: u64,
    collector: Option<u64>,
) -> PostMessageUnreliable {
    PostMessageUnreliable {
        config: Config {
            message_fee: fee,
            last_lamports: 0,
        },
        message: None,
        emitter,
        emitter_sequence: None,
        payer_lamports: payer,
        fee_collector_lamports: collector,
    }
}

#[test]
fn reusable_publish_writes_all_fields_and_starts_at_zero() {
    let a = Pubkey::new([1u8; 32]);
    let mut accounts = fresh_accounts(a, 0, 10, None);
    let r = post_message_unreliable(
        &mut accounts,
        PostMessageArgs {
            nonce: 7,
            payload: vec![1, 2, 3],
            commitment: Commitment::Finalized,
        },
        1000,
    );
    assert_eq!(r, Ok(0));
    let m = accounts.message.as_ref().unwrap();
    assert_eq!(m.status, MessageStatus::Published);
    assert_eq!(m.sequence, 0);
    assert_eq!(m.nonce, 7);
    assert_eq!(m.payload, vec![1, 2, 3]);
    assert_eq!(m.payload_capacity, 3);
    assert_eq!(m.posted_timestamp, 1000);
    assert_eq!(m.consistency_level, 32);
    assert_eq!(m.solana_chain_id, 1);
    assert_eq!(m.emitter.to_bytes(), [1u8; 32]);
    assert_eq!(m.emitter_authority.to_bytes(), [0u8; 32]);
    assert_eq!(accounts.emitter_sequence.as_ref().unwrap().value, 1);
}

#[test]
fn republish_overwrites_record_and_bumps_sequence() {
    let a = Pubkey::new([1u8; 32]);
    let mut accounts = fresh_accounts(a, 0, 10, None);
    let first = post_message_unreliable(
        &mut accounts,
        PostMessageArgs {
            nonce: 7,
            payload: vec![1, 2, 3],
            commitment: Commitment::Finalized,
        },
        1000,
    );
    assert_eq!(first, Ok(0));
    let second = post_message_unreliable(
        &mut accounts,
        PostMessageArgs {
            nonce: 8,
            payload: vec![4, 5, 6],
            commitment: Commitment::Confirmed,
        },
        1001,
    );
    assert_eq!(second, Ok(1));
    let m = accounts.message.as_ref().unwrap();
    assert_eq!(m.sequence, 1);
    assert_eq!(m.nonce, 8);
    assert_eq!(m.payload, vec![4, 5, 6]);
    assert_eq!(m.posted_timestamp, 1001);
    assert_eq!(m.consistency_level, 1);
    assert_eq!(accounts.emitter_sequence.as_ref().unwrap().value, 2);
}

#[test]
fn identical_payload_is_not_deduplicated() {
    let a = Pubkey::new([4u8; 32]);
    let mut accounts = fresh_accounts(a, 0, 10, None);
    let args = |nonce| PostMessageArgs {
        nonce,
        payload: vec![9, 9],
        commitment: Commitment::Finalized,
    };
    assert_eq!(post_message_unreliable(&mut accounts, args(1), 1), Ok(0));
    assert_eq!(post_message_unreliable(&mut accounts, args(1), 2), Ok(1));
    assert_eq!(accounts.message.as_ref().unwrap().sequence, 1);
}

#[test]
fn foreign_emitter_cannot_reuse_mailbox() {
    let a = Pubkey::new([1u8; 32]);
    let mut a_accounts = fresh_accounts(a, 0, 10, None);
    let r = post_message_unreliable(
        &mut a_accounts,
        PostMessageArgs {
            nonce: 7,
            payload: vec![1, 2, 3],
            commitment: Commitment::Finalized,
        },
        1000,
    );
    assert_eq!(r, Ok(0));

    let b = Pubkey::new([2u8; 32]);
    let mut b_accounts = PostMessageUnreliable {
        config: Config {
            message_fee: 0,
            last_lamports: 0,
        },
        message: a_accounts.message.take(),
        emitter: b,
        emitter_sequence: None,
        payer_lamports: 10,
        fee_collector_lamports: None,
    };
    let denied = post_message_unreliable(
        &mut b_accounts,
        PostMessageArgs {
            nonce: 9,
            payload: vec![7, 7, 7],
            commitment: Commitment::Finalized,
        },
        1002,
    );
    assert_eq!(denied, Err(BridgeError::EmitterMismatch));
    let m = b_accounts.message.as_ref().unwrap();
    assert_eq!(m.payload, vec![1, 2, 3]);
    assert_eq!(m.nonce, 7);
    assert_eq!(m.sequence, 0);
    assert_eq!(m.emitter.to_bytes(), [1u8; 32]);
    assert!(b_accounts.emitter_sequence.is_none());
    assert_eq!(b_accounts.payer_lamports, 10);
}

#[test]
fn capacity_is_fixed_at_first_creation() {
    let a = Pubkey::new([1u8; 32]);
    let mut accounts = fresh_accounts(a, 0, 10, None);
    let r = post_message_unreliable(
        &mut accounts,
        PostMessageArgs {
            nonce: 1,
            payload: vec![1, 2, 3],
            commitment: Commitment::Finalized,
        },
        1,
    );
    assert_eq!(r, Ok(0));
    for payload in [vec![1, 2], vec![1, 2, 3, 4]] {
        let denied = post_message_unreliable(
            &mut accounts,
            PostMessageArgs {
                nonce: 2,
                payload,
                commitment: Commitment::Finalized,
            },
            2,
        );
        assert_eq!(denied, Err(BridgeError::ConstraintSpace));
        assert_eq!(accounts.message.as_ref().unwrap().payload, vec![1, 2, 3]);
        assert_eq!(accounts.emitter_sequence.as_ref().unwrap().value, 1);
    }
}

#[test]
fn empty_payload_is_rejected() {
    let a = Pubkey::new([1u8; 32]);
    let mut accounts = fresh_accounts(a, 0, 10, None);
    let denied = post_message_unreliable(
        &mut accounts,
        PostMessageArgs {
            nonce: 1,
            payload: vec![],
            commitment: Commitment::Finalized,
        },
        1,
    );
    assert_eq!(denied, Err(BridgeError::InvalidInstructionArgument));
    assert!(accounts.message.is_none());
    assert!(accounts.emitter_sequence.is_none());
}

#[test]
fn zero_fee_or_missing_collector_charges_nothing() {
    let a = Pubkey::new([1u8; 32]);

    let mut no_collector = fresh_accounts(a, 50, 100, None);
    let r = post_message_unreliable(
        &mut no_collector,
        PostMessageArgs {
            nonce: 1,
            payload: vec![1],
            commitment: Commitment::Finalized,
        },
        1,
    );
    assert_eq!(r, Ok(0));
    assert_eq!(no_collector.payer_lamports, 100);

    let mut zero_fee = fresh_accounts(a, 0, 100, Some(500));
    let r = post_message_unreliable(
        &mut zero_fee,
        PostMessageArgs {
            nonce: 1,
            payload: vec![1],
            commitment: Commitment::Finalized,
        },
        1,
    );
    assert_eq!(r, Ok(0));
    assert_eq!(zero_fee.payer_lamports, 100);
    assert_eq!(zero_fee.fee_collector_lamports, Some(500));
    assert_eq!(zero_fee.config.last_lamports, 0);
}

#[test]
fn positive_fee_moves_exactly_the_fee() {
    let a = Pubkey::new([1u8; 32]);
    let mut accounts = fresh_accounts(a, 25, 100, Some(500));
    let r = post_message_unreliable(
        &mut accounts,
        PostMessageArgs {
            nonce: 1,
            payload: vec![1],
            commitment: Commitment::Finalized,
        },
        1,
    );
    assert_eq!(r, Ok(0));
    assert_eq!(accounts.payer_lamports, 75);
    assert_eq!(accounts.fee_collector_lamports, Some(525));
    assert_eq!(accounts.config.last_lamports, 525);
    assert_eq!(accounts.config.message_fee, 25);
}

#[test]
fn underfunded_payer_changes_nothing() {
    let a = Pubkey::new([1u8; 32]);
    let mut accounts = fresh_accounts(a, 200, 100, Some(500));
    let denied = post_message_unreliable(
        &mut accounts,
        PostMessageArgs {
            nonce: 1,
            payload: vec![1],
            commitment: Commitment::Finalized,
        },
        1,
    );
    assert_eq!(denied, Err(BridgeError::InsufficientFunds));
    assert_eq!(accounts.payer_lamports, 100);
    assert_eq!(accounts.fee_collector_lamports, Some(500));
    assert!(accounts.message.is_none());
    assert!(accounts.emitter_sequence.is_none());
}

#[test]
fn interleaved_emitters_keep_independent_sequences() {
    let a = Pubkey::new([1u8; 32]);
    let b = Pubkey::new([2u8; 32]);
    let mut a_accounts = fresh_accounts(a, 0, 10, None);
    let mut b_accounts = fresh_accounts(b, 0, 10, None);
    let args = |nonce| PostMessageArgs {
        nonce,
        payload: vec![1],
        commitment: Commitment::Finalized,
    };
    assert_eq!(post_message_unreliable(&mut a_accounts, args(1), 1), Ok(0));
    assert_eq!(post_message_unreliable(&mut b_accounts, args(2), 2), Ok(0));
    assert_eq!(post_message_unreliable(&mut a_accounts, args(3), 3), Ok(1));
    assert_eq!(post_message_unreliable(&mut b_accounts, args(4), 4), Ok(1));
    assert_eq!(post_message_unreliable(&mut a_accounts, args(5), 5), Ok(2));
}

#[test]
fn draft_lifecycle_write_finalize_then_immutable() {
    let emitter = Pubkey::new([3u8; 32]);
    let mut tracker = EmitterSequence::new();
    let mut m = MessageAccount::create_draft(6, emitter, 42);
    assert_eq!(m.status, MessageStatus::Writing);
    assert_eq!(m.write_payload(&[10, 11, 12]), Ok(()));
    assert_eq!(m.write_payload(&[13, 14, 15]), Ok(()));
    assert_eq!(
        m.write_payload(&[16]),
        Err(BridgeError::InvalidInstructionArgument)
    );
    assert_eq!(m.finalize(&mut tracker, 1, 555), Ok(0));
    assert_eq!(m.status, MessageStatus::Published);
    assert_eq!(m.payload, vec![10, 11, 12, 13, 14, 15]);
    assert_eq!(m.sequence, 0);
    assert_eq!(m.consistency_level, 1);
    assert_eq!(m.posted_timestamp, 555);
    assert_eq!(tracker.get_current(), 1);
    assert_eq!(
        m.write_payload(&[1]),
        Err(BridgeError::MessageAlreadyPublished)
    );
    assert_eq!(
        m.finalize(&mut tracker, 1, 556),
        Err(BridgeError::MessageAlreadyPublished)
    );
    assert_eq!(tracker.get_current(), 1);
}

#[test]
fn empty_draft_cannot_finalize() {
    let emitter = Pubkey::new([3u8; 32]);
    let mut tracker = EmitterSequence::new();
    let mut m = MessageAccount::create_draft(4, emitter, 0);
    assert_eq!(
        m.finalize(&mut tracker, 32, 10),
        Err(BridgeError::InvalidInstructionArgument)
    );
    assert_eq!(m.status, MessageStatus::Writing);
    assert_eq!(tracker.get_current(), 0);
}

#[test]
fn both_variants_share_one_emitter_sequence() {
    let emitter = Pubkey::new([5u8; 32]);
    let mut accounts = fresh_accounts(emitter, 0, 10, None);
    let r = post_message_unreliable(
        &mut accounts,
        PostMessageArgs {
            nonce: 1,
            payload: vec![1],
            commitment: Commitment::Finalized,
        },
        1,
    );
    assert_eq!(r, Ok(0));
    let mut tracker = accounts.emitter_sequence.take().unwrap();
    let mut draft = MessageAccount::create_draft(1, emitter, 2);
    assert_eq!(draft.write_payload(&[8]), Ok(()));
    assert_eq!(draft.finalize(&mut tracker, 32, 2), Ok(1));
    assert_eq!(tracker.get_current(), 2);
}

#[test]
fn prepared_message_space_adds_header() {
    assert_eq!(compute_prepared_message_space(0), 95);
    assert_eq!(compute_prepared_message_space(7), 102);
}

#[test]
fn error_names_are_stable() {
    assert_eq!(BridgeError::EmitterMismatch.describe(), "EmitterMismatch");
    assert_eq!(
        BridgeError::InvalidInstructionArgument.describe(),
        "InvalidInstructionArgument"
    );
}
