//! Validation of merchant profile data.
use vstd::prelude::*;
use super::error::PaymentError;

verus! {

pub const MIN_NAME_LENGTH: u32 = 1;

pub const MAX_NAME_LENGTH: u32 = 100;

pub const MAX_DESCRIPTION_LENGTH: u32 = 500;

pub const MAX_CONTACT_INFO_LENGTH: u32 = 200;

/// The transaction limit of a newly registered merchant, in stroops.
pub const DEFAULT_TRANSACTION_LIMIT: i128 = 1_000_000_000_000;

/// A merchant name has between 1 and 100 bytes.
pub open spec fn valid_name(name: Seq<u8>) -> bool {
    MIN_NAME_LENGTH <= name.len() <= MAX_NAME_LENGTH
}

/// A description has at most 500 bytes.
pub open spec fn valid_description(description: Seq<u8>) -> bool {
    description.len() <= MAX_DESCRIPTION_LENGTH
}

/// Contact information has at most 200 bytes.
pub open spec fn valid_contact_info(contact_info: Seq<u8>) -> bool {
    contact_info.len() <= MAX_CONTACT_INFO_LENGTH
}

/// Validates the length of a merchant name.
pub fn validate_name(name: &Vec<u8>) -> (r: Result<(), PaymentError>)
    ensures
        r is Ok <==> valid_name(name@),
        r is Err ==> r == Err::<(), PaymentError>(PaymentError::InvalidName),
{
    let len = name.len();
    if len < MIN_NAME_LENGTH as usize || len > MAX_NAME_LENGTH as usize {
        return Err(PaymentError::InvalidName);
    }
    Ok(())
}

/// Validates the length of a merchant description.
pub fn validate_description(description: &Vec<u8>) -> (r: Result<(), PaymentError>)
    ensures
        r is Ok <==> valid_description(description@),
        r is Err ==> r == Err::<(), PaymentError>(PaymentError::InvalidDescription),
{
    if description.len() > MAX_DESCRIPTION_LENGTH as usize {
        return Err(PaymentError::InvalidDescription);
    }
    Ok(())
}

/// Validates the length of merchant contact information.
pub fn validate_contact_info(contact_info: &Vec<u8>) -> (r: Result<(), PaymentError>)
    ensures
        r is Ok <==> valid_contact_info(contact_info@),
        r is Err ==> r == Err::<(), PaymentError>(PaymentError::InvalidContactInfo),
{
    if contact_info.len() > MAX_CONTACT_INFO_LENGTH as usize {
        return Err(PaymentError::InvalidContactInfo);
    }
    Ok(())
}

/// Validates that a transaction limit is positive.
pub fn validate_transaction_limit(limit: i128) -> (r: Result<(), PaymentError>)
    ensures
        r is Ok <==> limit > 0,
        r is Err ==> r == Err::<(), PaymentError>(PaymentError::InvalidTransactionLimit),
{
    if limit <= 0 {
        return Err(PaymentError::InvalidTransactionLimit);
    }
    Ok(())
}

} // verus!
