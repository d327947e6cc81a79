//! The plain values that stand for the execution environment: accounts with
//! their balances, the instructions of a bundle, and the two primitives that
//! move value, a lamport transfer and a token mint.

use crate::address::Address;
use vstd::prelude::*;

verus! {

/// An account that signed the bundle.
#[derive(Clone, Copy, Debug, PartialEq, Eq)]
pub struct Signer {
    pub key: Address,
    pub lamports: u64,
}

/// An account that holds lamports and no data.
#[derive(Clone, Copy, Debug, PartialEq, Eq)]
pub struct SystemAccount {
    pub key: Address,
    pub lamports: u64,
}

/// An account of which only the address and the balance matter.
#[derive(Clone, Copy, Debug, PartialEq, Eq)]
pub struct AccountInfo {
    pub key: Address,
    pub lamports: u64,
}

/// An account that exists and holds a record of type `T`.
#[derive(Clone, Copy, Debug, PartialEq, Eq)]
pub struct Account<T> {
    pub key: Address,
    pub lamports: u64,
    pub data: T,
}

/// An address that may or may not hold a record yet. Creating the account
/// and funding its rent is the environment's work; `lamports` is the balance
/// it reports.
#[derive(Clone, Copy, Debug, PartialEq, Eq)]
pub struct AccountSlot<T> {
    pub key: Address,
    pub lamports: u64,
    pub data: Option<T>,
}

impl<T: Copy> AccountSlot<T> {
    /// A slot at `key` that holds nothing.
    pub fn empty(key: Address) -> (slot: Self)
        ensures
            slot == (AccountSlot::<T> { key, lamports: 0, data: None }),
    {
        AccountSlot { key, lamports: 0, data: None }
    }

    /// The account in the slot, if it holds one.
    pub fn account(&self) -> (r: Option<Account<T>>)
        ensures
            match self.data {
                Some(data) => r == Some(Account { key: self.key, lamports: self.lamports, data }),
                None => r is None,
            },
    {
        match self.data {
            Some(data) => Some(Account { key: self.key, lamports: self.lamports, data }),
            None => None,
        }
    }
}

impl<T: Copy> Account<T> {
    /// The slot that holds this account.
    pub fn slot(&self) -> (r: AccountSlot<T>)
        ensures
            r == (AccountSlot { key: self.key, lamports: self.lamports, data: Some(self.data) }),
    {
        AccountSlot { key: self.key, lamports: self.lamports, data: Some(self.data) }
    }
}

/// Why a lamport transfer cannot be completed.
#[derive(Clone, Copy, Debug, PartialEq, Eq)]
pub enum TransferError {
    /// The source holds less than the amount.
    InsufficientFunds,
    /// The destination's balance would pass the largest 64-bit number.
    Overflow,
}

/// What a transfer of `amount` does to the balances of source and
/// destination, in this order.
pub open spec fn transfer_outcome(from: u64, to: u64, amount: u64) -> Result<
    (u64, u64),
    TransferError,
> {
    if from < amount {
        Err(TransferError::InsufficientFunds)
    } else if to + amount > u64::MAX {
        Err(TransferError::Overflow)
    } else {
        Ok(((from - amount) as u64, (to + amount) as u64))
    }
}

/// Moves `amount` lamports between two balances and returns the new
/// balances of source and destination.
pub fn transfer(from: u64, to: u64, amount: u64) -> (r: Result<(u64, u64), TransferError>)
    ensures
        r == transfer_outcome(from, to, amount),
        r matches Ok((f, t)) ==> f + t == from + to,
{
    if from < amount {
        Err(TransferError::InsufficientFunds)
    } else if amount > u64::MAX - to {
        Err(TransferError::Overflow)
    } else {
        Ok((from - amount, to + amount))
    }
}

/// What collecting a fee does: nothing where the fee is zero, a transfer of
/// the fee otherwise.
pub open spec fn fee_outcome(fee: u32, payer: u64, vault: u64) -> Result<
    (u64, u64),
    TransferError,
> {
    if fee > 0 {
        transfer_outcome(payer, vault, fee as u64)
    } else {
        Ok((payer, vault))
    }
}

/// Collects `fee` from the payer's balance into the vault's. A fee of zero
/// moves nothing and cannot fail.
pub fn collect_fee(fee: u32, payer: u64, vault: u64) -> (r: Result<(u64, u64), TransferError>)
    ensures
        r == fee_outcome(fee, payer, vault),
        fee == 0 ==> r == Ok::<(u64, u64), TransferError>((payer, vault)),
{
    if fee > 0 {
        transfer(payer, vault, fee as u64)
    } else {
        Ok((payer, vault))
    }
}

/// A reference to an account in an instruction.
#[derive(Clone, Copy, Debug, PartialEq, Eq)]
pub struct AccountMeta {
    pub pubkey: Address,
    pub is_signer: bool,
    pub is_writable: bool,
}

/// One instruction of a bundle.
#[derive(Clone, Debug, PartialEq, Eq)]
pub struct Instruction {
    pub program_id: Address,
    pub accounts: Vec<AccountMeta>,
    pub data: Vec<u8>,
}

/// The bundle under execution, as an instruction sees it: all instructions
/// in submission order and the position of the one that runs.
#[derive(Clone, Debug, PartialEq, Eq)]
pub struct InstructionsSysvar {
    pub current_index: u16,
    pub instructions: Vec<Instruction>,
}

impl InstructionsSysvar {
    /// Whether an instruction stands immediately before the current one.
    pub open spec fn has_preceding(&self) -> bool {
        0 < self.current_index && self.current_index - 1 < self.instructions.len()
    }

    /// The instruction immediately before the current one.
    pub open spec fn preceding(&self) -> Instruction
        recommends
            self.has_preceding(),
    {
        self.instructions[self.current_index - 1]
    }

    /// The instruction immediately before the current one; `None` where the
    /// current one is the first or the bundle holds none at that place.
    pub fn load_preceding(&self) -> (r: Option<&Instruction>)
        ensures
            r is Some == self.has_preceding(),
            r matches Some(ix) ==> *ix == self.preceding(),
    {
        if self.current_index == 0 {
            return None;
        }
        let at: usize = (self.current_index - 1) as usize;
        if at < self.instructions.len() {
            Some(&self.instructions[at])
        } else {
            None
        }
    }
}

/// The state of a token mint that issuance reads and changes.
#[derive(Clone, Copy, Debug, PartialEq, Eq)]
pub struct Mint {
    pub mint_authority: Option<Address>,
    pub supply: u64,
}

/// The state of a token account that issuance reads and changes.
#[derive(Clone, Copy, Debug, PartialEq, Eq)]
pub struct TokenAccount {
    pub mint: Address,
    pub owner: Address,
    pub amount: u64,
}

/// Why the token primitive refuses.
#[derive(Clone, Copy, Debug, PartialEq, Eq)]
pub enum TokenError {
    /// The account exists and holds no token account.
    InvalidAccountData,
    /// The token account belongs to another mint.
    MintMismatch,
    /// The mint has no authority, or another one than the signer.
    OwnerMismatch,
    /// Supply or balance would pass the largest 64-bit number.
    Overflow,
}

/// What minting `amount` under `authority` does to a mint and a token
/// account of it.
pub open spec fn mint_to_outcome(
    mint: Account<Mint>,
    to: Account<TokenAccount>,
    authority: Address,
    amount: u64,
) -> Result<(Account<Mint>, Account<TokenAccount>), TokenError> {
    if to.data.mint != mint.key {
        Err(TokenError::MintMismatch)
    } else if mint.data.mint_authority != Some(authority) {
        Err(TokenError::OwnerMismatch)
    } else if mint.data.supply + amount > u64::MAX || to.data.amount + amount > u64::MAX {
        Err(TokenError::Overflow)
    } else {
        Ok(
            (
                Account {
                    data: Mint { supply: (mint.data.supply + amount) as u64, ..mint.data },
                    ..mint
                },
                Account {
                    data: TokenAccount { amount: (to.data.amount + amount) as u64, ..to.data },
                    ..to
                },
            ),
        )
    }
}

/// Mints `amount` tokens of `mint` into `to`, signed by `authority`.
pub fn mint_to(mint: Account<Mint>, to: Account<TokenAccount>, authority: &Signer, amount: u64) -> (r:
    Result<(Account<Mint>, Account<TokenAccount>), TokenError>)
    ensures
        r == mint_to_outcome(mint, to, authority.key, amount),
{
    if !to.data.mint.same(&mint.key) {
        return Err(TokenError::MintMismatch);
    }
    let authorized = match mint.data.mint_authority {
        Some(a) => a.same(&authority.key),
        None => false,
    };
    if !authorized {
        return Err(TokenError::OwnerMismatch);
    }
    if amount > u64::MAX - mint.data.supply || amount > u64::MAX - to.data.amount {
        return Err(TokenError::Overflow);
    }
    Ok(
        (
            Account {
                key: mint.key,
                lamports: mint.lamports,
                data: Mint {
                    mint_authority: mint.data.mint_authority,
                    supply: mint.data.supply + amount,
                },
            },
            Account {
                key: to.key,
                lamports: to.lamports,
                data: TokenAccount {
                    mint: to.data.mint,
                    owner: to.data.owner,
                    amount: to.data.amount + amount,
                },
            },
        ),
    )
}

/// What handing the mint authority of `mint` to `new_authority` does, asked
/// for by `authority`.
pub open spec fn set_mint_authority_outcome(
    mint: Account<Mint>,
    authority: Address,
    new_authority: Address,
) -> Result<Account<Mint>, TokenError> {
    if mint.data.mint_authority != Some(authority) {
        Err(TokenError::OwnerMismatch)
    } else {
        Ok(Account { data: Mint { mint_authority: Some(new_authority), ..mint.data }, ..mint })
    }
}

/// Hands the mint authority of `mint` to `new_authority`, signed by the
/// current `authority`.
pub fn set_mint_authority(mint: Account<Mint>, authority: &Signer, new_authority: Address) -> (r:
    Result<Account<Mint>, TokenError>)
    ensures
        r == set_mint_authority_outcome(mint, authority.key, new_authority),
{
    let authorized = match mint.data.mint_authority {
        Some(a) => a.same(&authority.key),
        None => false,
    };
    if !authorized {
        return Err(TokenError::OwnerMismatch);
    }
    Ok(
        Account {
            key: mint.key,
            lamports: mint.lamports,
            data: Mint { mint_authority: Some(new_authority), supply: mint.data.supply },
        },
    )
}

} // verus!
