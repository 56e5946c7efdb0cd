use crate::errors::BridgeError;
use crate::keys::Pubkey;
use crate::sequence::EmitterSequence;
use crate::SOLANA_CHAIN;
use vstd::prelude::*;

verus! {

/// Bytes of a posted-message account that precede the payload: a 4-byte
/// discriminator, then consistency level (1), emitter authority (32),
/// status (1), a 3-byte gap, posted timestamp (4), nonce (4), sequence
/// (8), origin chain id (2), emitter (32), and the 4-byte payload length.
pub const PAYLOAD_START: usize = 95;

/// The space a posted-message account needs before it is initialized for
/// a payload of `payload_size` bytes.
pub fn compute_prepared_message_space(payload_size: usize) -> (r: usize)
    requires
        payload_size <= usize::MAX - PAYLOAD_START,
    ensures
        r == PAYLOAD_START + payload_size,
{
    PAYLOAD_START + payload_size
}

/// Where a message account stands in its lifecycle.
#[derive(Clone, Copy, Debug, PartialEq, Eq, Structural)]
pub enum MessageStatus {
    /// Fresh zeroed account data; nothing recorded yet.
    Unset,
    /// A draft: the payload may still be written.
    Writing,
    /// Finalized and observable; immutable for the finalized-once
    /// variant, fully overwritten on each publish for the reusable one.
    Published,
}

/// The confirmation depth the guardians should wait for before attesting
/// to a message.
#[derive(Clone, Copy, Debug, PartialEq, Eq, Structural)]
pub enum Commitment {
    Confirmed,
    Finalized,
}

impl Commitment {
    /// The consistency level a commitment is persisted as.
    pub open spec fn spec_consistency_level(self) -> u8 {
        match self {
            Commitment::Confirmed => 1,
            Commitment::Finalized => 32,
        }
    }

    /// The consistency level a commitment is persisted as.
    pub fn consistency_level(self) -> (r: u8)
        ensures
            r == self.spec_consistency_level(),
    {
        match self {
            Commitment::Confirmed => 1,
            Commitment::Finalized => 32,
        }
    }
}

/// A per-message account owned by the core bridge. The fields are exactly
/// the persisted ones; `payload_capacity` stands for the byte capacity
/// the account was allocated with, which can never change afterwards.
#[derive(Debug)]
pub struct MessageAccount {
    pub status: MessageStatus,
    pub consistency_level: u8,
    /// Who may write to the draft; zeroed for reusable messages.
    pub emitter_authority: Pubkey,
    pub posted_timestamp: u32,
    /// Caller-supplied grouping value; not unique.
    pub nonce: u32,
    /// Assigned from the emitter's tracker when the message is published.
    pub sequence: u64,
    /// Chain identifier of the chain this program runs on.
    pub solana_chain_id: u16,
    pub emitter: Pubkey,
    pub payload: Vec<u8>,
    /// Payload bytes the account has room for; fixed at creation.
    pub payload_capacity: usize,
}

impl MessageAccount {
    /// The payload never outgrows the space the account was created with.
    pub open spec fn wf(&self) -> bool {
        self.payload@.len() <= self.payload_capacity
    }

    /// Create the account for a finalized-once message: space is
    /// allocated for `payload_capacity` payload bytes, the emitter and
    /// nonce are recorded, and the payload stays empty until written.
    pub fn create_draft(payload_capacity: usize, emitter: Pubkey, nonce: u32) -> (m:
        MessageAccount)
        ensures
            m.wf(),
            m.status == MessageStatus::Writing,
            m.emitter == emitter,
            m.nonce == nonce,
            m.payload@ == Seq::<u8>::empty(),
            m.payload_capacity == payload_capacity,
            m.sequence == 0,
            m.posted_timestamp == 0,
            m.consistency_level == 0,
            m.solana_chain_id == SOLANA_CHAIN,
            m.emitter_authority@ == crate::keys::zero_key(),
    {
        MessageAccount {
            status: MessageStatus::Writing,
            consistency_level: 0,
            emitter_authority: Pubkey::zeroed(),
            posted_timestamp: 0,
            nonce,
            sequence: 0,
            solana_chain_id: SOLANA_CHAIN,
            emitter,
            payload: Vec::new(),
            payload_capacity,
        }
    }

    /// Append payload bytes to a draft.
    ///
    /// Fails on a message that is no longer writable, and on a write that
    /// would not fit the allocated space; a failed write changes nothing.
    pub fn write_payload(&mut self, data: &[u8]) -> (r: Result<(), BridgeError>)
        requires
            old(self).wf(),
        ensures
            final(self).wf(),
            r is Ok <==> old(self).status == MessageStatus::Writing && old(self).payload@.len()
                + data@.len() <= old(self).payload_capacity,
            r is Err ==> *final(self) == *old(self),
            old(self).status != MessageStatus::Writing ==> r == Err::<(), BridgeError>(
                BridgeError::MessageAlreadyPublished,
            ),
            old(self).status == MessageStatus::Writing && old(self).payload@.len() + data@.len()
                > old(self).payload_capacity ==> r == Err::<(), BridgeError>(
                BridgeError::InvalidInstructionArgument,
            ),
            r is Ok ==> *final(self) == (MessageAccount {
                payload: final(self).payload,
                ..*old(self)
            }) && final(self).payload@ == old(self).payload@ + data@,
    {
        if !matches!(self.status, MessageStatus::Writing) {
            return Err(BridgeError::MessageAlreadyPublished);
        }
        if data.len() > self.payload_capacity - self.payload.len() {
            return Err(BridgeError::InvalidInstructionArgument);
        }
        let mut i: usize = 0;
        while i < data.len()
            invariant
                i <= data@.len(),
                self.payload@ == old(self).payload@ + data@.subrange(0, i as int),
                self.payload@.len() == old(self).payload@.len() + i,
                self.payload_capacity == old(self).payload_capacity,
                self.status == old(self).status,
                self.consistency_level == old(self).consistency_level,
                self.emitter_authority == old(self).emitter_authority,
                self.posted_timestamp == old(self).posted_timestamp,
                self.nonce == old(self).nonce,
                self.sequence == old(self).sequence,
                self.solana_chain_id == old(self).solana_chain_id,
                self.emitter == old(self).emitter,
                old(self).payload@.len() + data@.len() <= old(self).payload_capacity,
            decreases data@.len() - i,
        {
            self.payload.push(data[i]);
            proof {
                assert(self.payload@ =~= old(self).payload@ + data@.subrange(0, i + 1));
            }
            i = i + 1;
        }
        proof {
            assert(data@.subrange(0, data@.len() as int) =~= data@);
        }
        Ok(())
    }

    /// Finalize a draft: assign the emitter's next sequence number, stamp
    /// the posting time and requested consistency level, and make the
    /// message immutable. Irreversible; fails without mutation on a
    /// message that is not a non-empty draft.
    pub fn finalize(
        &mut self,
        emitter_sequence: &mut EmitterSequence,
        consistency_level: u8,
        timestamp: u32,
    ) -> (r: Result<u64, BridgeError>)
        requires
            old(self).wf(),
            old(emitter_sequence).value < u64::MAX,
        ensures
            final(self).wf(),
            r is Ok <==> old(self).status == MessageStatus::Writing && old(
                self,
            ).payload@.len() > 0,
            r is Err ==> *final(self) == *old(self) && *final(emitter_sequence) == *old(
                emitter_sequence,
            ),
            old(self).status != MessageStatus::Writing ==> r == Err::<u64, BridgeError>(
                BridgeError::MessageAlreadyPublished,
            ),
            old(self).status == MessageStatus::Writing && old(self).payload@.len() == 0 ==> r
                == Err::<u64, BridgeError>(BridgeError::InvalidInstructionArgument),
            r is Ok ==> {
                &&& r == Ok::<u64, BridgeError>(old(emitter_sequence).value)
                &&& final(emitter_sequence).value == old(emitter_sequence).value + 1
                &&& *final(self) == (MessageAccount {
                    status: MessageStatus::Published,
                    consistency_level,
                    posted_timestamp: timestamp,
                    sequence: old(emitter_sequence).value,
                    ..*old(self)
                })
            },
    {
        if !matches!(self.status, MessageStatus::Writing) {
            return Err(BridgeError::MessageAlreadyPublished);
        }
        if self.payload.len() == 0 {
            return Err(BridgeError::InvalidInstructionArgument);
        }
        let seq = emitter_sequence.allocate_next();
        self.status = MessageStatus::Published;
        self.consistency_level = consistency_level;
        self.posted_timestamp = timestamp;
        self.sequence = seq;
        Ok(seq)
    }
}

} // verus!
