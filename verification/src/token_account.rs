use crate::errors::BridgeError;
use crate::keys::Pubkey;
use vstd::bytes::{spec_u32_from_le_bytes, spec_u64_from_le_bytes, u32_from_le_bytes,
    u64_from_le_bytes};
use vstd::prelude::*;
use vstd::slice::{slice_index_get, slice_subrange};

verus! {

/// Exact byte length of a token-ledger account record.
pub const TOKEN_ACCOUNT_LEN: usize = 165;

/// Offset of the one-byte account state within the record.
pub const STATE_OFFSET: usize = 108;

/// State byte of a token account.
#[derive(Clone, Copy, Debug, PartialEq, Eq, Structural)]
pub enum AccountState {
    Uninitialized,
    Initialized,
    Frozen,
}

/// A read-only, zero-copy view over the raw data of a token account that
/// belongs to the token-ledger program. The buffer is foreign-owned, so
/// nothing of it is trusted beyond what `load` checked: the owner, the
/// exact length and an initialized state byte. Every accessor re-reads
/// its field from the raw bytes at its fixed offset; no parsed copy is
/// ever materialized.
pub struct TokenAccount<'a> {
    data: &'a [u8],
}

impl<'a> View for TokenAccount<'a> {
    type V = Seq<u8>;

    closed spec fn view(&self) -> Seq<u8> {
        self.data@
    }
}

impl<'a> TokenAccount<'a> {
    /// What `load` establishes: the right length, and a state byte that
    /// is initialized or frozen.
    pub open spec fn wf(&self) -> bool {
        &&& self@.len() == TOKEN_ACCOUNT_LEN
        &&& (self@[STATE_OFFSET as int] == 1 || self@[STATE_OFFSET as int] == 2)
    }

    /// Validate a foreign account before exposing any field: it must be
    /// owned by the token-ledger program (`token_program`), have exactly
    /// the record length, and not be uninitialized. `acc_owner` is the
    /// owner recorded on the account itself.
    pub fn load(acc_owner: &Pubkey, token_program: &Pubkey, data: &'a [u8]) -> (r: Result<
        TokenAccount<'a>,
        BridgeError,
    >)
        ensures
            r is Ok <==> acc_owner@ == token_program@ && data@.len() == TOKEN_ACCOUNT_LEN && (
            data@[STATE_OFFSET as int] == 1 || data@[STATE_OFFSET as int] == 2),
            acc_owner@ != token_program@ ==> r == Err::<TokenAccount<'a>, BridgeError>(
                BridgeError::ConstraintTokenTokenProgram,
            ),
            acc_owner@ == token_program@ && data@.len() != TOKEN_ACCOUNT_LEN ==> r == Err::<
                TokenAccount<'a>,
                BridgeError,
            >(BridgeError::AccountDidNotDeserialize),
            acc_owner@ == token_program@ && data@.len() == TOKEN_ACCOUNT_LEN && data@[
                STATE_OFFSET as int] == 0 ==> r == Err::<TokenAccount<'a>, BridgeError>(
                BridgeError::AccountNotInitialized,
            ),
            acc_owner@ == token_program@ && data@.len() == TOKEN_ACCOUNT_LEN && data@[
                STATE_OFFSET as int] > 2 ==> r == Err::<TokenAccount<'a>, BridgeError>(
                BridgeError::AccountDidNotDeserialize,
            ),
            r matches Ok(t) ==> t@ == data@ && t.wf(),
    {
        if !acc_owner.key_eq(token_program) {
            return Err(BridgeError::ConstraintTokenTokenProgram);
        }
        if data.len() != TOKEN_ACCOUNT_LEN {
            return Err(BridgeError::AccountDidNotDeserialize);
        }
        let state_byte = *slice_index_get(data, STATE_OFFSET);
        if state_byte == 0 {
            return Err(BridgeError::AccountNotInitialized);
        }
        if state_byte > 2 {
            return Err(BridgeError::AccountDidNotDeserialize);
        }
        Ok(TokenAccount { data })
    }

    /// The mint this account holds tokens of.
    pub fn mint(&self) -> (r: Pubkey)
        requires
            self.wf(),
        ensures
            r@ == self@.subrange(0, 32),
    {
        Pubkey::from_slice(slice_subrange(self.data, 0, 32))
    }

    /// The owner of this account.
    pub fn owner(&self) -> (r: Pubkey)
        requires
            self.wf(),
        ensures
            r@ == self@.subrange(32, 64),
    {
        Pubkey::from_slice(slice_subrange(self.data, 32, 64))
    }

    /// The amount of tokens this account holds.
    pub fn amount(&self) -> (r: u64)
        requires
            self.wf(),
        ensures
            r == spec_u64_from_le_bytes(self@.subrange(64, 72)),
    {
        u64_from_le_bytes(slice_subrange(self.data, 64, 72))
    }

    /// The delegate, if one was approved; `delegated_amount` is only
    /// meaningful when this is present.
    pub fn delegate(&self) -> (r: Option<Pubkey>)
        requires
            self.wf(),
        ensures
            spec_u32_from_le_bytes(self@.subrange(72, 76)) == 0 ==> r is None,
            spec_u32_from_le_bytes(self@.subrange(72, 76)) != 0 ==> (r matches Some(k) && k@
                == self@.subrange(76, 108)),
    {
        if u32_from_le_bytes(slice_subrange(self.data, 72, 76)) == 0 {
            None
        } else {
            Some(Pubkey::from_slice(slice_subrange(self.data, 76, 108)))
        }
    }

    /// The account's state byte.
    pub fn state(&self) -> (r: AccountState)
        requires
            self.wf(),
        ensures
            self@[STATE_OFFSET as int] == 1 ==> r == AccountState::Initialized,
            self@[STATE_OFFSET as int] == 2 ==> r == AccountState::Frozen,
    {
        if *slice_index_get(self.data, STATE_OFFSET) == 1 {
            AccountState::Initialized
        } else {
            AccountState::Frozen
        }
    }

    /// For a native (wrapped-lamport) account, the rent-exempt reserve
    /// below which its balance may not fall; `None` for an ordinary
    /// token account.
    pub fn is_native(&self) -> (r: Option<u64>)
        requires
            self.wf(),
        ensures
            spec_u32_from_le_bytes(self@.subrange(109, 113)) == 0 ==> r is None,
            spec_u32_from_le_bytes(self@.subrange(109, 113)) != 0 ==> r == Some(
                spec_u64_from_le_bytes(self@.subrange(113, 121)),
            ),
    {
        if u32_from_le_bytes(slice_subrange(self.data, 109, 113)) == 0 {
            None
        } else {
            Some(u64_from_le_bytes(slice_subrange(self.data, 113, 121)))
        }
    }

    /// The amount the delegate may still spend.
    pub fn delegated_amount(&self) -> (r: u64)
        requires
            self.wf(),
        ensures
            r == spec_u64_from_le_bytes(self@.subrange(121, 129)),
    {
        u64_from_le_bytes(slice_subrange(self.data, 121, 129))
    }

    /// The authority allowed to close the account, if one was set.
    pub fn close_authority(&self) -> (r: Option<Pubkey>)
        requires
            self.wf(),
        ensures
            spec_u32_from_le_bytes(self@.subrange(129, 133)) == 0 ==> r is None,
            spec_u32_from_le_bytes(self@.subrange(129, 133)) != 0 ==> (r matches Some(k) && k@
                == self@.subrange(133, 165)),
    {
        if u32_from_le_bytes(slice_subrange(self.data, 129, 133)) == 0 {
            None
        } else {
            Some(Pubkey::from_slice(slice_subrange(self.data, 133, 165)))
        }
    }
}

} // verus!
