//! The error taxonomy of the service.
//!
//! Validation and business-rule failures abort the current operation without
//! side effects; every variant maps to the HTTP status code the routing layer
//! surfaces for it.

use vstd::prelude::*;

verus! {

#[derive(Clone, Copy, Debug, PartialEq, Eq, Structural)]
pub enum AccountError {
    /// `user_id` is missing a valid value (must be at least 1).
    InvalidUserId,
    /// `asset_type_id` is absent, not positive, or names no active asset type.
    InvalidAssetTypeId,
    /// `action_type_id` is absent, not positive, or names no active action type.
    InvalidActionTypeId,
    /// `amount` is absent or carries more than six fractional digits.
    InvalidAmount,
    /// `amount` is below `0.000001`, the smallest accepted value.
    AmountTooSmall,
    /// `order_number`, when present, is shorter than 32 characters.
    InvalidOrderNumber,
    /// `description`, when present, is empty.
    InvalidDescription,
    /// An account for the requested (user, asset type) pair already exists.
    Conflict,
    /// No matching account was found.
    NotFound,
    /// The target account is deactivated.
    Forbidden,
    /// A decrement would have driven the guarded balance negative.
    InsufficientBalance,
    /// A store-level failure: a row that should exist is gone, or a balance
    /// left the range the store's numeric columns can represent.
    Internal,
}

impl AccountError {
    /// The HTTP status code the routing layer reports for this error.
    pub open spec fn status_code_spec(self) -> u16 {
        match self {
            AccountError::InvalidUserId => 422,
            AccountError::InvalidAssetTypeId => 422,
            AccountError::InvalidActionTypeId => 422,
            AccountError::InvalidAmount => 422,
            AccountError::AmountTooSmall => 422,
            AccountError::InvalidOrderNumber => 422,
            AccountError::InvalidDescription => 422,
            AccountError::Conflict => 409,
            AccountError::NotFound => 404,
            AccountError::Forbidden => 403,
            AccountError::InsufficientBalance => 500,
            AccountError::Internal => 500,
        }
    }

    pub fn status_code(&self) -> (r: u16)
        ensures
            r == self.status_code_spec(),
    {
        match self {
            AccountError::InvalidUserId => 422,
            AccountError::InvalidAssetTypeId => 422,
            AccountError::InvalidActionTypeId => 422,
            AccountError::InvalidAmount => 422,
            AccountError::AmountTooSmall => 422,
            AccountError::InvalidOrderNumber => 422,
            AccountError::InvalidDescription => 422,
            AccountError::Conflict => 409,
            AccountError::NotFound => 404,
            AccountError::Forbidden => 403,
            AccountError::InsufficientBalance => 500,
            AccountError::Internal => 500,
        }
    }
}

} // verus!
