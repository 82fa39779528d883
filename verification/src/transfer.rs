//! The moves of funds that an operation asks the ledger for, and the checks
//! on the token accounts that a move names.
use vstd::prelude::*;

use crate::address::{
    associated_token_address, find_protocol_address, get_associated_token_address_with_program_id,
    protocol_address,
};
use crate::error::CustomError;
use crate::fee::fee_or_zero;
use crate::pubkey::{assert_keys_equal, keys_equal_or, Pubkey};

verus! {

/// One move of funds. The operations decide on moves; the ledger performs
/// them, all of an operation's moves or none.
#[derive(Clone, Copy, Debug, PartialEq, Eq)]
pub enum Transfer {
    /// Native currency, from one account to another.
    Sol { source: Pubkey, destination: Pubkey, amount: u64 },
    /// Tokens of one mint, from one token account to another, signed for by
    /// the authority over the source.
    Token {
        token_program: Pubkey,
        source: Pubkey,
        mint: Pubkey,
        destination: Pubkey,
        authority: Pubkey,
        amount: u64,
        decimals: u8,
    },
}

impl Transfer {
    /// How much the move carries.
    pub open spec fn amount(&self) -> u64 {
        match *self {
            Transfer::Sol { amount, .. } => amount,
            Transfer::Token { amount, .. } => amount,
        }
    }
}

/// What leaves a payer in one operation: the principal, and the fee where
/// one is moved.
#[derive(Clone, Copy, Debug, PartialEq, Eq)]
pub struct Payout {
    /// The move to the payee.
    pub principal: Transfer,
    /// The move to the protocol's fee pool.
    pub fee: Option<Transfer>,
}

impl Payout {
    /// All that leaves the payer.
    pub open spec fn total(&self) -> int {
        match self.fee {
            Some(fee) => self.principal.amount() + fee.amount(),
            None => self.principal.amount() + 0,
        }
    }
}

/// The token accounts that a caller hands in for a token move.
#[derive(Clone, Copy, Debug, PartialEq, Eq)]
pub struct TokenAccounts {
    /// The token program that is to move the tokens.
    pub token_program: Pubkey,
    /// The mint of the tokens.
    pub mint: Pubkey,
    /// The decimals that the mint's account records, where the ledger could
    /// read the account as a mint.
    pub decimals: Option<u8>,
    /// The token account to take from.
    pub source: Pubkey,
    /// The token account to pay to.
    pub destination: Pubkey,
    /// The token account of the protocol's fee pool, where the caller handed
    /// one in. A move with a fee needs it.
    pub protocol_ata: Option<Pubkey>,
}

/// `Ok` when a derivation found an address and `key` is that address,
/// otherwise the given error.
pub open spec fn derived_key_or(
    key: Pubkey,
    derived: Option<Pubkey>,
    error_type: CustomError,
) -> Result<(), CustomError> {
    match derived {
        Some(expected) => keys_equal_or(key, expected, error_type),
        None => Err(error_type),
    }
}

/// The token account of the protocol's fee pool for the mint of `accounts`.
pub open spec fn protocol_token_account(accounts: TokenAccounts, program_id: Pubkey) -> Option<
    Pubkey,
> {
    match protocol_address(program_id) {
        Some(protocol) => associated_token_address(protocol, accounts.mint, accounts.token_program),
        None => None,
    }
}

/// The token move of `amount` over the accounts handed in, to `destination`.
pub open spec fn token_transfer(
    accounts: TokenAccounts,
    decimals: u8,
    destination: Pubkey,
    authority: Pubkey,
    amount: u64,
) -> Transfer {
    Transfer::Token {
        token_program: accounts.token_program,
        source: accounts.source,
        mint: accounts.mint,
        destination,
        authority,
        amount,
        decimals,
    }
}

/// The fee that is moved: the fee that was set, unless it is zero.
pub open spec fn fee_to_move(fee_amount: Option<u64>) -> Option<u64> {
    match fee_amount {
        Some(fee) => if fee != 0 {
            Some(fee)
        } else {
            None
        },
        None => None,
    }
}

/// What `transfer_spl_token` returns. In this order: the mint must be the
/// asset (`InvalidMintKey`); the mint's account must have been readable
/// (`InvalidTokenAccount`); the source must be the token account of the
/// payer (`InvalidSourceAta`) and the destination that of the payee
/// (`InvalidDestinationAta`). Where a fee is moved, the protocol's token
/// account must have been handed in (`InvalidTokenAccount`) and be the token
/// account of the fee pool (`InvalidDestinationAta`). A fee of zero is not
/// moved.
pub open spec fn token_payout(
    accounts: TokenAccounts,
    token_pubkey: Pubkey,
    from_pubkey: Pubkey,
    to_pubkey: Pubkey,
    authority: Pubkey,
    amount: u64,
    fee_amount: Option<u64>,
    program_id: Pubkey,
) -> Result<Payout, CustomError> {
    if accounts.mint != token_pubkey {
        Err(CustomError::InvalidMintKey)
    } else {
        match accounts.decimals {
            None => Err(CustomError::InvalidTokenAccount),
            Some(decimals) => if associated_token_address(
                from_pubkey,
                accounts.mint,
                accounts.token_program,
            ) != Some(accounts.source) {
                Err(CustomError::InvalidSourceAta)
            } else if associated_token_address(to_pubkey, accounts.mint, accounts.token_program)
                != Some(accounts.destination) {
                Err(CustomError::InvalidDestinationAta)
            } else {
                let principal = token_transfer(
                    accounts,
                    decimals,
                    accounts.destination,
                    authority,
                    amount,
                );
                match fee_to_move(fee_amount) {
                    None => Ok(Payout { principal, fee: None }),
                    Some(fee) => match accounts.protocol_ata {
                        None => Err(CustomError::InvalidTokenAccount),
                        Some(protocol_ata) => if protocol_token_account(accounts, program_id)
                            != Some(protocol_ata) {
                            Err(CustomError::InvalidDestinationAta)
                        } else {
                            Ok(
                                Payout {
                                    principal,
                                    fee: Some(
                                        token_transfer(
                                            accounts,
                                            decimals,
                                            protocol_ata,
                                            authority,
                                            fee,
                                        ),
                                    ),
                                },
                            )
                        },
                    },
                }
            },
        }
    }
}

/// What `sol_payout` returns: the principal, and the fee where it is not
/// zero.
pub open spec fn native_payout(
    source: Pubkey,
    destination: Pubkey,
    protocol: Pubkey,
    amount: u64,
    fee: u64,
) -> Payout {
    Payout {
        principal: Transfer::Sol { source, destination, amount },
        fee: if fee != 0 {
            Some(Transfer::Sol { source, destination: protocol, amount: fee })
        } else {
            None
        },
    }
}

/// Checks that `key` is the address that a derivation found.
pub fn assert_derived_key(key: &Pubkey, derived: Option<Pubkey>, error_type: CustomError) -> (r:
    Result<(), CustomError>)
    ensures
        r == derived_key_or(*key, derived, error_type),
{
    match derived {
        Some(expected) => assert_keys_equal(key, &expected, error_type),
        None => Err(error_type),
    }
}

/// Plans a move of native currency from one account to another.
pub fn transfer_sol(source: &Pubkey, destination: &Pubkey, amount: u64) -> (transfer: Transfer)
    ensures
        transfer == (Transfer::Sol { source: *source, destination: *destination, amount }),
{
    Transfer::Sol { source: *source, destination: *destination, amount }
}

/// Plans a checked move of tokens from one token account to another.
pub fn transfer_spl_token_internal(
    token_program: &Pubkey,
    mint: &Pubkey,
    source: &Pubkey,
    destination: &Pubkey,
    authority: &Pubkey,
    amount: u64,
    decimals: u8,
) -> (transfer: Transfer)
    ensures
        transfer == (Transfer::Token {
            token_program: *token_program,
            source: *source,
            mint: *mint,
            destination: *destination,
            authority: *authority,
            amount,
            decimals,
        }),
{
    Transfer::Token {
        token_program: *token_program,
        source: *source,
        mint: *mint,
        destination: *destination,
        authority: *authority,
        amount,
        decimals,
    }
}

/// Plans the moves of native currency out of `source`: `amount` to
/// `destination` and, where `fee` is not zero, `fee` to the protocol's fee
/// pool.
pub fn sol_payout(
    source: &Pubkey,
    destination: &Pubkey,
    protocol: &Pubkey,
    amount: u64,
    fee: u64,
) -> (payout: Payout)
    ensures
        payout == native_payout(*source, *destination, *protocol, amount, fee),
        payout.total() == amount + fee,
{
    let principal = transfer_sol(source, destination, amount);
    let fee = if fee != 0 {
        Some(transfer_sol(source, protocol, fee))
    } else {
        None
    };
    Payout { principal, fee }
}

/// Plans a move of tokens from the token account of `from_pubkey` to that
/// of `to_pubkey`, and with a fee that is not zero a second move to the
/// token account of the protocol's fee pool. The accounts handed in are
/// checked first: a wrong mint is rejected with `InvalidMintKey`, a mint
/// account that could not be read with `InvalidTokenAccount`, a wrong source
/// with `InvalidSourceAta`, a wrong destination with
/// `InvalidDestinationAta`; where a fee is moved, a protocol account that
/// was not handed in with `InvalidTokenAccount` and a wrong one with
/// `InvalidDestinationAta`.
pub fn transfer_spl_token(
    list_remaining_accounts: &TokenAccounts,
    token_pubkey: &Pubkey,
    from_pubkey: &Pubkey,
    to_pubkey: &Pubkey,
    authority: &Pubkey,
    amount: u64,
    fee_amount: Option<u64>,
    program_id: &Pubkey,
) -> (r: Result<Payout, CustomError>)
    ensures
        r == token_payout(
            *list_remaining_accounts,
            *token_pubkey,
            *from_pubkey,
            *to_pubkey,
            *authority,
            amount,
            fee_amount,
            *program_id,
        ),
        r is Ok ==> r->Ok_0.principal.amount() == amount,
        r is Ok ==> r->Ok_0.total() == amount + fee_or_zero(fee_amount),
{
    let accounts = list_remaining_accounts;
    assert_keys_equal(&accounts.mint, token_pubkey, CustomError::InvalidMintKey)?;
    let decimals = match accounts.decimals {
        Some(decimals) => decimals,
        None => {
            return Err(CustomError::InvalidTokenAccount);
        },
    };

    let source_key = get_associated_token_address_with_program_id(
        from_pubkey,
        &accounts.mint,
        &accounts.token_program,
    );
    assert_derived_key(&accounts.source, source_key, CustomError::InvalidSourceAta)?;

    let destination_key = get_associated_token_address_with_program_id(
        to_pubkey,
        &accounts.mint,
        &accounts.token_program,
    );
    assert_derived_key(&accounts.destination, destination_key, CustomError::InvalidDestinationAta)?;

    let principal = transfer_spl_token_internal(
        &accounts.token_program,
        &accounts.mint,
        &accounts.source,
        &accounts.destination,
        authority,
        amount,
        decimals,
    );
    let fee = match fee_amount {
        Some(fee) => fee,
        None => 0,
    };
    if fee == 0 {
        return Ok(Payout { principal, fee: None });
    }
    let protocol_ata = match accounts.protocol_ata {
        Some(key) => key,
        None => {
            return Err(CustomError::InvalidTokenAccount);
        },
    };
    let protocol_ata_key = match find_protocol_address(program_id) {
        Some(protocol_pubkey) => get_associated_token_address_with_program_id(
            &protocol_pubkey,
            &accounts.mint,
            &accounts.token_program,
        ),
        None => None,
    };
    assert_derived_key(&protocol_ata, protocol_ata_key, CustomError::InvalidDestinationAta)?;
    let fee_transfer = transfer_spl_token_internal(
        &accounts.token_program,
        &accounts.mint,
        &accounts.source,
        &protocol_ata,
        authority,
        fee,
        decimals,
    );
    Ok(Payout { principal, fee: Some(fee_transfer) })
}

} // verus!
