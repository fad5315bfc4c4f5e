//! Accounts that can be checked against the arguments of their operation.

use vstd::prelude::*;
use crate::fractionalization::errors::CustomError;

verus! {

/// The accounts of an operation that knows how to check itself.
pub trait ValidateAccounts {
    /// What the check needs besides the accounts, as a rule the arguments of
    /// the operation.
    type Args;

    /// Checks the accounts against `args`.
    fn validate(&self, args: &Self::Args) -> Result<(), CustomError>;
}

/// The accounts of an operation, of a kind that can be checked.
pub struct ValidatableContext<T: ValidateAccounts>(pub T);

impl<T: ValidateAccounts> ValidatableContext<T> {
    /// Wraps the accounts.
    pub fn new(ctx: T) -> (wrapped: ValidatableContext<T>)
        ensures
            wrapped.0 == ctx,
    {
        ValidatableContext(ctx)
    }

    /// Hands the accounts back.
    pub fn get_ctx(self) -> (ctx: T)
        ensures
            ctx == self.0,
    {
        self.0
    }
}

} // verus!
