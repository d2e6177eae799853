//! The bank that an account of the control panel is attached to, and the
//! validation of its name.

use crate::identity::Identity;
use crate::text::byte_len;
use vstd::prelude::*;
use vstd::string::StringExecFns;

verus! {

/// The bytes that an identity takes in stable memory.
pub const MAX_BYTE_SIZE_PRINCIPAL: u32 = 29;

/// Why an account is refused.
#[derive(Clone, Debug, PartialEq, Eq)]
pub enum AccountError {
    /// The account does not meet a constraint, which `info` names.
    ValidationError { info: String },
}

#[derive(Clone, Debug, Eq, Ord, PartialEq, PartialOrd, Hash)]
pub struct AccountBank {
    pub canister_id: Identity,
    pub name: Option<String>,
}

impl AccountBank {
    /// The maximum size of each field in stable memory.
    pub const MAX_BYTE_SIZE_CANISTER_ID: u32 = MAX_BYTE_SIZE_PRINCIPAL;

    pub const MAX_BYTE_SIZE_NAME: u32 = 150;

    /// The maximum size of the Bank information in stable memory.
    pub const MAX_BYTE_SIZE: u32 = 256;

    /// The number of bytes that are not used by the account and could be used to add more fields to the account
    /// without breaking the stable memory layout, if this overflows then the stable memory layout will be broken.
    pub const SPARE_BYTES: u32 = Self::MAX_BYTE_SIZE - Self::MAX_BYTE_SIZE_CANISTER_ID
        - Self::MAX_BYTE_SIZE_NAME;

    /// Whether the bank may be stored: it has no name, or a name of one to
    /// 150 bytes.
    pub open spec fn valid(&self) -> bool {
        match self.name {
            Some(name) => 1 <= byte_len(name@) <= 150,
            None => true,
        }
    }

    /// Validates the bank.
    pub fn validate(&self) -> (verdict: Result<(), AccountError>)
        ensures
            verdict is Ok <==> self.valid(),
            verdict matches Err(AccountError::ValidationError { info }) ==> info@
                == name_length_text(),
    {
        AccountBankValidator::new(self).validate()
    }
}

/// The text that reports a name of a length that is not allowed.
pub open spec fn name_length_text() -> Seq<char> {
    "Bank name length must be between 1 and 150"@
}

pub struct AccountBankValidator<'model> {
    model: &'model AccountBank,
}

impl<'model> AccountBankValidator<'model> {
    /// The least and the greatest length of a name, in bytes.
    pub const NAME_LEN_RANGE: (u8, u8) = (1, 150);

    /// The bank under validation.
    pub closed spec fn model(&self) -> AccountBank {
        *self.model
    }

    pub fn new(model: &'model AccountBank) -> (validator: Self)
        ensures
            validator.model() == *model,
    {
        Self { model }
    }

    /// Checks the length of the name, counted in bytes, where there is one.
    pub fn validate_name(&self) -> (verdict: Result<(), AccountError>)
        ensures
            verdict is Ok <==> self.model().valid(),
            verdict matches Err(AccountError::ValidationError { info }) ==> info@
                == name_length_text(),
    {
        if let Some(name) = &self.model.name {
            let length = name.as_str().as_bytes().len();
            if (length < Self::NAME_LEN_RANGE.0 as usize) || (length
                > Self::NAME_LEN_RANGE.1 as usize) {
                return Err(
                    AccountError::ValidationError {
                        info: String::from_str("Bank name length must be between 1 and 150"),
                    },
                );
            }
        }
        Ok(())
    }

    pub fn validate(&self) -> (verdict: Result<(), AccountError>)
        ensures
            verdict is Ok <==> self.model().valid(),
            verdict matches Err(AccountError::ValidationError { info }) ==> info@
                == name_length_text(),
    {
        self.validate_name()
    }
}

} // verus!
