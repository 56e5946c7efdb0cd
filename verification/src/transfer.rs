use crate::amounts::{normalize_amount, spec_normalize, spec_truncate, truncate_amount};
use crate::config::{fee_amount, fee_applied, fee_ok};
use crate::errors::BridgeError;
use crate::keys::Pubkey;
use crate::message::{Commitment, MessageStatus};
use crate::post_message::{current_sequence, post_message_unreliable, PostMessageArgs,
    PostMessageUnreliable};
use crate::sequence::EmitterSequence;
use crate::SOLANA_CHAIN;
use vstd::prelude::*;

verus! {

broadcast use crate::keys::lemma_key_len;

/// Wire identifier of a transfer that carries an arbitrary payload.
pub const TRANSFER_WITH_PAYLOAD_ID: u8 = 3;

/// Bytes of an encoded transfer message that precede the caller payload.
pub const TRANSFER_HEADER_LEN: usize = 133;

/// A 16-bit value in big-endian byte order.
pub open spec fn spec_be_u16(x: u16) -> Seq<u8> {
    seq![((x >> 8) & 0xff) as u8, (x & 0xff) as u8]
}

/// A 64-bit value in big-endian byte order.
pub open spec fn spec_be_u64(x: u64) -> Seq<u8> {
    seq![
        ((x >> 56) & 0xff) as u8,
        ((x >> 48) & 0xff) as u8,
        ((x >> 40) & 0xff) as u8,
        ((x >> 32) & 0xff) as u8,
        ((x >> 24) & 0xff) as u8,
        ((x >> 16) & 0xff) as u8,
        ((x >> 8) & 0xff) as u8,
        (x & 0xff) as u8,
    ]
}

/// The transfer-with-payload message body: a one-byte identifier, the
/// normalized amount as a 32-byte big-endian integer, the token address,
/// its chain, the redeemer and its chain, the sender address, and the
/// caller's opaque payload.
pub open spec fn spec_transfer_payload(
    norm_amount: u64,
    token_address: Seq<u8>,
    token_chain: u16,
    redeemer: Seq<u8>,
    redeemer_chain: u16,
    sender: Seq<u8>,
    payload: Seq<u8>,
) -> Seq<u8> {
    seq![TRANSFER_WITH_PAYLOAD_ID] + Seq::new(24, |i: int| 0u8) + spec_be_u64(norm_amount)
        + token_address + spec_be_u16(token_chain) + redeemer + spec_be_u16(redeemer_chain)
        + sender + payload
}

fn push_zeros(out: &mut Vec<u8>, n: usize)
    ensures
        final(out)@ == old(out)@ + Seq::new(n as nat, |i: int| 0u8),
{
    let mut i: usize = 0;
    while i < n
        invariant
            i <= n,
            out@ == old(out)@ + Seq::new(i as nat, |j: int| 0u8),
        decreases n - i,
    {
        out.push(0u8);
        proof {
            assert(out@ =~= old(out)@ + Seq::new((i + 1) as nat, |j: int| 0u8));
        }
        i = i + 1;
    }
}

fn push_key(out: &mut Vec<u8>, key: &Pubkey)
    ensures
        final(out)@ == old(out)@ + key@,
{
    let bytes = key.to_bytes();
    let mut i: usize = 0;
    while i < 32
        invariant
            i <= 32,
            bytes@.len() == 32,
            bytes@ == key@,
            out@ == old(out)@ + bytes@.subrange(0, i as int),
        decreases 32 - i,
    {
        out.push(bytes[i]);
        proof {
            assert(out@ =~= old(out)@ + bytes@.subrange(0, i + 1));
        }
        i = i + 1;
    }
    proof {
        assert(bytes@.subrange(0, 32) =~= key@);
    }
}

fn push_slice(out: &mut Vec<u8>, data: &[u8])
    ensures
        final(out)@ == old(out)@ + data@,
{
    let mut i: usize = 0;
    while i < data.len()
        invariant
            i <= data@.len(),
            out@ == old(out)@ + data@.subrange(0, i as int),
        decreases data@.len() - i,
    {
        out.push(data[i]);
        proof {
            assert(out@ =~= old(out)@ + data@.subrange(0, i + 1));
        }
        i = i + 1;
    }
    proof {
        assert(data@.subrange(0, data@.len() as int) =~= data@);
    }
}

fn push_be_u16(out: &mut Vec<u8>, x: u16)
    ensures
        final(out)@ == old(out)@ + spec_be_u16(x),
{
    out.push(((x >> 8) & 0xff) as u8);
    out.push((x & 0xff) as u8);
    proof {
        assert(out@ =~= old(out)@ + spec_be_u16(x));
    }
}

fn push_be_u64(out: &mut Vec<u8>, x: u64)
    ensures
        final(out)@ == old(out)@ + spec_be_u64(x),
{
    out.push(((x >> 56) & 0xff) as u8);
    out.push(((x >> 48) & 0xff) as u8);
    out.push(((x >> 40) & 0xff) as u8);
    out.push(((x >> 32) & 0xff) as u8);
    out.push(((x >> 24) & 0xff) as u8);
    out.push(((x >> 16) & 0xff) as u8);
    out.push(((x >> 8) & 0xff) as u8);
    out.push((x & 0xff) as u8);
    proof {
        assert(out@ =~= old(out)@ + spec_be_u64(x));
    }
}

/// A token-transfer intent, built by the transfer handler and serialized
/// into the body of the published message. `norm_amount` is the raw
/// amount reduced to the canonical 8 decimals, so it never exceeds the
/// raw 64-bit amount.
pub struct TransferWithMessage {
    pub norm_amount: u64,
    pub token_address: Pubkey,
    pub token_chain: u16,
    pub redeemer: Pubkey,
    pub redeemer_chain: u16,
    pub sender: Pubkey,
    pub payload: Vec<u8>,
}

impl TransferWithMessage {
    /// The byte encoding of this transfer.
    pub open spec fn spec_encode(self) -> Seq<u8> {
        spec_transfer_payload(
            self.norm_amount,
            self.token_address@,
            self.token_chain,
            self.redeemer@,
            self.redeemer_chain,
            self.sender@,
            self.payload@,
        )
    }

    /// Serialize the transfer into the message body handed to the
    /// publish protocol.
    pub fn encode(&self) -> (r: Vec<u8>)
        ensures
            r@ == self.spec_encode(),
            r@.len() == TRANSFER_HEADER_LEN + self.payload@.len(),
    {
        let mut out: Vec<u8> = Vec::new();
        out.push(TRANSFER_WITH_PAYLOAD_ID);
        push_zeros(&mut out, 24);
        push_be_u64(&mut out, self.norm_amount);
        push_key(&mut out, &self.token_address);
        push_be_u16(&mut out, self.token_chain);
        push_key(&mut out, &self.redeemer);
        push_be_u16(&mut out, self.redeemer_chain);
        push_key(&mut out, &self.sender);
        push_slice(&mut out, self.payload.as_slice());
        proof {
            assert(out@ =~= self.spec_encode());
        }
        out
    }
}

/// Arguments of the transfer-with-payload instruction.
pub struct TransferTokensWithPayloadArgs {
    pub nonce: u32,
    /// Raw amount, in the mint's own decimals.
    pub amount: u64,
    pub redeemer: Pubkey,
    pub redeemer_chain: u16,
    pub payload: Vec<u8>,
    /// When present, the transfer is authorized on behalf of this
    /// program rather than of the signing authority itself.
    pub cpi_program_id: Option<Pubkey>,
}

/// The seed a program's sender authority is derived from: the bytes of
/// the word "sender".
pub open spec fn sender_seed() -> Seq<u8> {
    seq![115u8, 101u8, 110u8, 100u8, 101u8, 114u8]
}

/// The seed a program's sender authority is derived from, as bytes.
fn sender_seed_bytes() -> (r: Vec<u8>)
    ensures
        r@ == sender_seed(),
{
    let mut v: Vec<u8> = Vec::new();
    v.push(115u8);
    v.push(101u8);
    v.push(110u8);
    v.push(100u8);
    v.push(101u8);
    v.push(114u8);
    proof {
        assert(v@ =~= sender_seed());
    }
    v
}

/// Does the signing authority prove the right to send for the claimed
/// program? With no claimed program every signer may send as itself;
/// with one, the signer must be exactly the address the platform
/// derives for that program from the sender seed.
pub open spec fn sender_ok(sender_authority: Seq<u8>, cpi_program_id: Option<Pubkey>) -> bool {
    match cpi_program_id {
        None => true,
        Some(p) => crate::keys::pda_of(sender_seed(), p@) == Some(sender_authority),
    }
}

/// The sender address encoded in the transfer: the signing authority
/// itself, or the program on whose behalf it signs.
pub open spec fn spec_sender(sender_authority: Seq<u8>, cpi_program_id: Option<Pubkey>) -> Seq<
    u8,
> {
    match cpi_program_id {
        None => sender_authority,
        Some(p) => p@,
    }
}

/// Derive the sender address a transfer is published under: the signer
/// itself, or — when the signer proves to be the claimed program's
/// derived sender authority — that program.
pub fn new_sender_address(sender_authority: &Pubkey, cpi_program_id: &Option<Pubkey>) -> (r:
    Result<Pubkey, BridgeError>)
    ensures
        r is Ok <==> sender_ok(sender_authority@, *cpi_program_id),
        r matches Ok(s) ==> s@ == spec_sender(sender_authority@, *cpi_program_id),
        r is Err ==> r == Err::<Pubkey, BridgeError>(BridgeError::InvalidProgramSender),
{
    match cpi_program_id {
        None => Ok(*sender_authority),
        Some(program_id) => {
            let seed = sender_seed_bytes();
            match crate::keys::derive_program_address(seed.as_slice(), program_id) {
                Some(expected) => {
                    if sender_authority.key_eq(&expected) {
                        Ok(*program_id)
                    } else {
                        Err(BridgeError::InvalidProgramSender)
                    }
                },
                None => Err(BridgeError::InvalidProgramSender),
            }
        },
    }
}

/// The account set of the transfer-with-payload instruction for a native
/// mint, reduced to the values the instruction reads and writes. `core`
/// bundles the core-bridge accounts the publish step works on; its
/// `emitter` is the token bridge's emitter authority and its message
/// account is a fresh signer, so it must not exist yet.
pub struct TransferTokensWithPayloadNative {
    /// Balance of the source token account tokens leave.
    pub src_token_amount: u64,
    /// Address of the mint being transferred.
    pub mint: Pubkey,
    pub mint_decimals: u8,
    /// Data length of the would-be wrapped-asset record of the mint; a
    /// native mint has none, so anything but 0 rejects the transfer.
    pub wrapped_asset_data_len: usize,
    /// Balance of the program-controlled custody account.
    pub custody_token_amount: u64,
    /// Address of the authority signing the transfer.
    pub sender_authority: Pubkey,
    /// The core-bridge account set the message is published through.
    pub core: PostMessageUnreliable,
}

/// Move native tokens into custody and publish the transfer message.
///
/// The moved amount is the raw amount truncated to the canonical 8
/// decimals, and the message body encodes the same quantity normalized;
/// the message is published under the token bridge's emitter with the
/// next sequence number of that emitter, which the call returns. On any
/// failure nothing changes.
pub fn transfer_tokens_with_payload_native(
    accounts: &mut TransferTokensWithPayloadNative,
    args: TransferTokensWithPayloadArgs,
    timestamp: u32,
) -> (r: Result<u64, BridgeError>)
    requires
        old(accounts).core.message is None,
        old(accounts).mint_decimals <= 27,
        current_sequence(old(accounts).core.emitter_sequence) < u64::MAX,
        old(accounts).core.fee_collector_lamports matches Some(c) ==> c + old(
            accounts,
        ).core.config.message_fee <= u64::MAX,
        old(accounts).custody_token_amount + spec_truncate(args.amount, old(
            accounts,
        ).mint_decimals) <= u64::MAX,
    ensures
        r is Ok <==> {
            &&& old(accounts).wrapped_asset_data_len == 0
            &&& sender_ok(old(accounts).sender_authority@, args.cpi_program_id)
            &&& old(accounts).src_token_amount >= spec_truncate(args.amount, old(
                accounts,
            ).mint_decimals)
            &&& fee_ok(
                old(accounts).core.config,
                old(accounts).core.payer_lamports,
                old(accounts).core.fee_collector_lamports,
            )
        },
        r is Err ==> *final(accounts) == *old(accounts),
        old(accounts).wrapped_asset_data_len != 0 ==> r == Err::<u64, BridgeError>(
            BridgeError::WrappedAsset,
        ),
        old(accounts).wrapped_asset_data_len == 0 && !sender_ok(
            old(accounts).sender_authority@,
            args.cpi_program_id,
        ) ==> r == Err::<u64, BridgeError>(BridgeError::InvalidProgramSender),
        old(accounts).wrapped_asset_data_len == 0 && sender_ok(
            old(accounts).sender_authority@,
            args.cpi_program_id,
        ) && (old(accounts).src_token_amount < spec_truncate(args.amount, old(
            accounts,
        ).mint_decimals) || !fee_ok(
            old(accounts).core.config,
            old(accounts).core.payer_lamports,
            old(accounts).core.fee_collector_lamports,
        )) ==> r == Err::<u64, BridgeError>(BridgeError::InsufficientFunds),
        r is Ok ==> {
            let moved = spec_truncate(args.amount, old(accounts).mint_decimals);
            let norm = spec_normalize(args.amount, old(accounts).mint_decimals);
            let seq = current_sequence(old(accounts).core.emitter_sequence);
            let fee = fee_amount(
                old(accounts).core.config,
                old(accounts).core.fee_collector_lamports,
            );
            &&& r == Ok::<u64, BridgeError>(seq)
            &&& final(accounts).src_token_amount == old(accounts).src_token_amount - moved
            &&& final(accounts).custody_token_amount == old(accounts).custody_token_amount
                + moved
            &&& final(accounts).mint == old(accounts).mint
            &&& final(accounts).mint_decimals == old(accounts).mint_decimals
            &&& final(accounts).wrapped_asset_data_len == 0
            &&& final(accounts).sender_authority == old(accounts).sender_authority
            &&& final(accounts).core.emitter == old(accounts).core.emitter
            &&& final(accounts).core.emitter_sequence == Some(
                EmitterSequence { value: (seq + 1) as u64 },
            )
            &&& final(accounts).core.payer_lamports == old(accounts).core.payer_lamports - fee
            &&& fee_applied(
                old(accounts).core.config,
                old(accounts).core.fee_collector_lamports,
                final(accounts).core.config,
                final(accounts).core.fee_collector_lamports,
            )
            &&& (final(accounts).core.message matches Some(m) && {
                &&& m.status == MessageStatus::Published
                &&& m.emitter@ == old(accounts).core.emitter@
                &&& m.sequence == seq
                &&& m.nonce == args.nonce
                &&& m.posted_timestamp == timestamp
                &&& m.consistency_level == Commitment::Finalized.spec_consistency_level()
                &&& m.payload@ == spec_transfer_payload(
                    norm as u64,
                    old(accounts).mint@,
                    SOLANA_CHAIN,
                    args.redeemer@,
                    args.redeemer_chain,
                    spec_sender(old(accounts).sender_authority@, args.cpi_program_id),
                    args.payload@,
                )
            })
        },
{
    // Account validation: the mint must not be one this bridge wrapped.
    if accounts.wrapped_asset_data_len != 0 {
        return Err(BridgeError::WrappedAsset);
    }

    // The sender address the message is published under.
    let sender = match new_sender_address(&accounts.sender_authority, &args.cpi_program_id) {
        Ok(s) => s,
        Err(e) => {
            return Err(e);
        },
    };

    // The deposit moves only whole canonical units.
    let moved = truncate_amount(args.amount, accounts.mint_decimals);
    if accounts.src_token_amount < moved {
        return Err(BridgeError::InsufficientFunds);
    }

    // The publish step's fee must be coverable before anything mutates.
    if accounts.core.fee_collector_lamports.is_some() && accounts.core.config.message_fee > 0
        && accounts.core.payer_lamports < accounts.core.config.message_fee {
        return Err(BridgeError::InsufficientFunds);
    }

    // Deposit into custody.
    accounts.src_token_amount = accounts.src_token_amount - moved;
    accounts.custody_token_amount = accounts.custody_token_amount + moved;

    // Build the transfer body with the normalized amount.
    let transfer = TransferWithMessage {
        norm_amount: normalize_amount(args.amount, accounts.mint_decimals),
        token_address: accounts.mint,
        token_chain: SOLANA_CHAIN,
        redeemer: args.redeemer,
        redeemer_chain: args.redeemer_chain,
        sender,
        payload: args.payload,
    };
    let body = transfer.encode();

    // Publish through the core bridge.
    match post_message_unreliable(
        &mut accounts.core,
        PostMessageArgs { nonce: args.nonce, payload: body, commitment: Commitment::Finalized },
        timestamp,
    ) {
        Ok(seq) => Ok(seq),
        Err(e) => Err(e),
    }
}

} // verus!
