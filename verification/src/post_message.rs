use crate::config::{collect_fee, fee_amount, fee_applied, fee_ok, Config};
use crate::errors::BridgeError;
use crate::keys::{zero_key, Pubkey};
use crate::message::{Commitment, MessageAccount, MessageStatus};
use crate::sequence::EmitterSequence;
use crate::SOLANA_CHAIN;
use vstd::prelude::*;

verus! {

/// Arguments of a post-message instruction.
pub struct PostMessageArgs {
    /// Caller-chosen grouping value; not unique.
    pub nonce: u32,
    /// The message body the guardians will observe.
    pub payload: Vec<u8>,
    /// Confirmation depth the guardians should wait for.
    pub commitment: Commitment,
}

/// The account set of the reusable-message publish instruction, reduced
/// to the values the instruction reads and writes. `message` and
/// `emitter_sequence` are `None` while the corresponding account has
/// never been created; the instruction creates them on first use, paid
/// for by the payer. A missing fee collector makes the fee step a no-op.
pub struct PostMessageUnreliable {
    pub config: Config,
    pub message: Option<MessageAccount>,
    /// Address of the emitter signing this instruction.
    pub emitter: Pubkey,
    pub emitter_sequence: Option<EmitterSequence>,
    pub payer_lamports: u64,
    pub fee_collector_lamports: Option<u64>,
}

/// Tracker value the next publish will be handed: 0 while the tracker
/// account has never been created.
pub open spec fn current_sequence(s: Option<EmitterSequence>) -> u64 {
    match s {
        None => 0,
        Some(t) => t.value,
    }
}

/// The allocation-layer check: an account created earlier fixes its
/// payload capacity forever, so a publish must bring a payload of exactly
/// that length. A missing account is created for the new payload and
/// passes.
pub open spec fn space_ok(msg: Option<MessageAccount>, payload_len: nat) -> bool {
    match msg {
        None => true,
        Some(m) => m.payload_capacity == payload_len,
    }
}

/// The access-control check: a message account that was published before
/// (non-empty payload) is a mailbox owned by its recorded emitter; only
/// that emitter may publish to it again. A fresh or never-published
/// account may be claimed by any emitter.
pub open spec fn emitter_matches(msg: Option<MessageAccount>, emitter: Seq<u8>) -> bool {
    match msg {
        None => true,
        Some(m) => m.payload@.len() == 0 || m.emitter@ == emitter,
    }
}

/// Law: the capacity a reusable account was first created with is final.
/// A publish bringing a payload of any other length fails the
/// allocation-layer check, and a failed publish changes nothing.
pub proof fn lemma_capacity_rejects_other_length(m: MessageAccount, payload_len: nat)
    requires
        m.payload_capacity != payload_len,
    ensures
        !space_ok(Some(m), payload_len),
{
}

impl PostMessageUnreliable {
    /// The check run before the instruction body: the signing emitter
    /// must be the one recorded in an already-published message account.
    pub fn constraints(&self) -> (r: Result<(), BridgeError>)
        ensures
            r is Ok <==> emitter_matches(self.message, self.emitter@),
            r is Err ==> r == Err::<(), BridgeError>(BridgeError::EmitterMismatch),
    {
        match &self.message {
            None => Ok(()),
            Some(m) => {
                if m.payload.len() > 0 && !self.emitter.key_eq(&m.emitter) {
                    Err(BridgeError::EmitterMismatch)
                } else {
                    Ok(())
                }
            },
        }
    }
}

/// Publish a reusable ("unreliable") message.
///
/// On success the message account — created first if it never existed —
/// is wholly overwritten with the published record: the caller's nonce
/// and payload, the posting time, the signing emitter, and the sequence
/// number taken from the emitter's tracker, which advances by one; the
/// assigned sequence number is returned. The payer covers the configured
/// fee exactly when a fee collector account is supplied and the fee is
/// not zero. On any failure no account changes.
pub fn post_message_unreliable(
    accounts: &mut PostMessageUnreliable,
    args: PostMessageArgs,
    timestamp: u32,
) -> (r: Result<u64, BridgeError>)
    requires
        current_sequence(old(accounts).emitter_sequence) < u64::MAX,
        old(accounts).fee_collector_lamports matches Some(c) ==> c
            + old(accounts).config.message_fee <= u64::MAX,
    ensures
        r is Ok <==> {
            &&& space_ok(old(accounts).message, args.payload@.len())
            &&& emitter_matches(old(accounts).message, old(accounts).emitter@)
            &&& fee_ok(
                old(accounts).config,
                old(accounts).payer_lamports,
                old(accounts).fee_collector_lamports,
            )
            &&& args.payload@.len() > 0
        },
        r is Err ==> *final(accounts) == *old(accounts),
        !space_ok(old(accounts).message, args.payload@.len()) ==> r == Err::<u64, BridgeError>(
            BridgeError::ConstraintSpace,
        ),
        space_ok(old(accounts).message, args.payload@.len()) && !emitter_matches(
            old(accounts).message,
            old(accounts).emitter@,
        ) ==> r == Err::<u64, BridgeError>(BridgeError::EmitterMismatch),
        space_ok(old(accounts).message, args.payload@.len()) && emitter_matches(
            old(accounts).message,
            old(accounts).emitter@,
        ) && !fee_ok(
            old(accounts).config,
            old(accounts).payer_lamports,
            old(accounts).fee_collector_lamports,
        ) ==> r == Err::<u64, BridgeError>(BridgeError::InsufficientFunds),
        space_ok(old(accounts).message, args.payload@.len()) && emitter_matches(
            old(accounts).message,
            old(accounts).emitter@,
        ) && fee_ok(
            old(accounts).config,
            old(accounts).payer_lamports,
            old(accounts).fee_collector_lamports,
        ) && args.payload@.len() == 0 ==> r == Err::<u64, BridgeError>(
            BridgeError::InvalidInstructionArgument,
        ),
        r is Ok ==> {
            let seq = current_sequence(old(accounts).emitter_sequence);
            let moved = fee_amount(old(accounts).config, old(accounts).fee_collector_lamports);
            &&& r == Ok::<u64, BridgeError>(seq)
            &&& final(accounts).emitter == old(accounts).emitter
            &&& final(accounts).emitter_sequence == Some(EmitterSequence { value: (seq + 1) as u64 })
            &&& (final(accounts).message matches Some(m) && {
                &&& m.status == MessageStatus::Published
                &&& m.consistency_level == args.commitment.spec_consistency_level()
                &&& m.emitter_authority@ == zero_key()
                &&& m.posted_timestamp == timestamp
                &&& m.nonce == args.nonce
                &&& m.sequence == seq
                &&& m.solana_chain_id == SOLANA_CHAIN
                &&& m.emitter@ == old(accounts).emitter@
                &&& m.payload@ == args.payload@
                &&& m.payload_capacity == args.payload@.len()
                &&& m.wf()
            })
            &&& final(accounts).payer_lamports == old(accounts).payer_lamports - moved
            &&& fee_applied(
                old(accounts).config,
                old(accounts).fee_collector_lamports,
                final(accounts).config,
                final(accounts).fee_collector_lamports,
            )
        },
{
    // Account validation: an existing account's space was fixed by the
    // payload length of its first creation.
    match &accounts.message {
        None => {},
        Some(m) => {
            if m.payload_capacity != args.payload.len() {
                return Err(BridgeError::ConstraintSpace);
            }
        },
    }

    // Access control: a published mailbox belongs to its emitter.
    match accounts.constraints() {
        Ok(()) => {},
        Err(e) => {
            return Err(e);
        },
    }

    // The fee step must be able to go through before anything mutates.
    if accounts.fee_collector_lamports.is_some() && accounts.config.message_fee > 0
        && accounts.payer_lamports < accounts.config.message_fee {
        return Err(BridgeError::InsufficientFunds);
    }

    if args.payload.len() == 0 {
        return Err(BridgeError::InvalidInstructionArgument);
    }

    // All checks passed; from here on the instruction cannot fail.
    match collect_fee(
        &mut accounts.config,
        &mut accounts.payer_lamports,
        &mut accounts.fee_collector_lamports,
    ) {
        Ok(()) => {},
        Err(e) => {
            return Err(e);
        },
    }

    let seq: u64 = match &accounts.emitter_sequence {
        None => 0,
        Some(t) => t.value,
    };
    let capacity = args.payload.len();
    accounts.message = Some(
        MessageAccount {
            status: MessageStatus::Published,
            consistency_level: args.commitment.consistency_level(),
            emitter_authority: Pubkey::zeroed(),
            posted_timestamp: timestamp,
            nonce: args.nonce,
            sequence: seq,
            solana_chain_id: SOLANA_CHAIN,
            emitter: accounts.emitter,
            payload: args.payload,
            payload_capacity: capacity,
        },
    );
    accounts.emitter_sequence = Some(EmitterSequence { value: seq + 1 });
    Ok(seq)
}

} // verus!
