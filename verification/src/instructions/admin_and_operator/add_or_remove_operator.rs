//! Add or remove operator: the admin manages the operators.
use vstd::prelude::*;

use crate::error::CustomError;
use crate::pubkey::{assert_keys_equal, keys_equal_or, Pubkey};
use crate::state::config::{is_other, Config};

verus! {

/// The accounts of adding or removing an operator.
#[derive(Clone, Debug, PartialEq, Eq)]
pub struct AddOrRemoveOperator {
    /// The caller, who signed.
    pub signer: Pubkey,
    /// The protocol's configuration.
    pub config: Config,
}

impl AddOrRemoveOperator {
    /// What `validate` returns: only the admin may manage the operators.
    pub open spec fn constraints(&self) -> Result<(), CustomError> {
        keys_equal_or(self.signer, self.config.admin, CustomError::Unauthorized)
    }

    /// Checks the accounts against each other, before anything else is
    /// looked at.
    pub fn validate(&self) -> (r: Result<(), CustomError>)
        ensures
            r == self.constraints(),
    {
        assert_keys_equal(&self.signer, &self.config.admin, CustomError::Unauthorized)
    }
}

/// What adding or removing returns once the caller is known to be the
/// admin.
pub open spec fn add_or_remove_operator_validated(
    config: Config,
    operator: Pubkey,
    is_add: bool,
) -> Result<(), CustomError> {
    if is_add {
        if config.has_operator(operator) {
            Err(CustomError::OperatorAlreadyExists)
        } else if config.operators@.len() >= Config::OPERATORS_SIZE {
            Err(CustomError::OperatorLimitReached)
        } else {
            Ok(())
        }
    } else {
        if !config.has_operator(operator) {
            Err(CustomError::OperatorNotFound)
        } else {
            Ok(())
        }
    }
}

/// The operators after a successful call.
pub open spec fn operators_after(config: Config, operator: Pubkey, is_add: bool) -> Seq<Pubkey> {
    if is_add {
        config.operators@.push(operator)
    } else {
        config.operators@.filter(is_other(operator))
    }
}

/// What `handler_add_or_remove_operator` returns: the caller is held against
/// the admin first.
pub open spec fn add_or_remove_operator_result(
    accounts: AddOrRemoveOperator,
    operator: Pubkey,
    is_add: bool,
) -> Result<(), CustomError> {
    match accounts.constraints() {
        Err(e) => Err(e),
        Ok(_) => add_or_remove_operator_validated(accounts.config, operator, is_add),
    }
}

/// Adds the operator, or removes it. Only the admin may call
/// (`Unauthorized`). Adding a listed key is rejected with
/// `OperatorAlreadyExists`, adding a fourth operator with
/// `OperatorLimitReached`, removing a key that is not listed with
/// `OperatorNotFound`. A rejected call changes nothing.
pub fn handler_add_or_remove_operator(
    accounts: &mut AddOrRemoveOperator,
    operator: Pubkey,
    is_add: bool,
) -> (r: Result<(), CustomError>)
    ensures
        r == add_or_remove_operator_result(*old(accounts), operator, is_add),
        r is Ok ==> final(accounts).config.operators@ == operators_after(
            old(accounts).config,
            operator,
            is_add,
        ),
        r is Err ==> final(accounts).config.operators@ == old(accounts).config.operators@,
        final(accounts).config.same_settings(&old(accounts).config),
        final(accounts).signer == old(accounts).signer,
        old(accounts).config.wf() ==> final(accounts).config.wf(),
{
    accounts.validate()?;
    if is_add {
        accounts.config.add_operator(operator)?;
    } else {
        accounts.config.remove_operator(operator)?;
    }
    Ok(())
}

} // verus!
