//! Errors of the payment-processing contract.
use vstd::prelude::*;

verus! {

/// Errors that the payment-processing contract returns.
#[derive(Clone, Copy, Debug, PartialEq, Eq, Structural)]
pub enum PaymentError {
    NotAuthorized,
    MerchantNotFound,
    InvalidSignature,
    NonceAlreadyUsed,
    InvalidAmount,
    OrderExpired,
    InvalidToken,
    InvalidName,
    InvalidDescription,
    InvalidContactInfo,
    MerchantAlreadyExists,
    TransactionLimitExceeded,
    InvalidTransactionLimit,
    MerchantInactive,
    AdminNotFound,
    ContractPaused,
    AlreadyPaused,
    InvalidFeeRate,
    PaymentNotFound,
    InvalidThreshold,
    ThresholdNotMet,
    AlreadyExecuted,
    AlreadyCancelled,
    PaymentExpired,
    AlreadySigned,
    NotASigner,
    InvalidStatus,
    EmptySignersList,
    DuplicateSigner,
    InvalidPaymentId,
    RefundNotFound,
    NotRefundable,
    RefundWindowExceeded,
    ExceedsOriginalAmount,
    InvalidRefundStatus,
    InsufficientBalance,
}

/// The contract error code of each error.
pub open spec fn spec_payment_error_code(e: PaymentError) -> u32 {
    match e {
        PaymentError::NotAuthorized => 1,
        PaymentError::MerchantNotFound => 2,
        PaymentError::InvalidSignature => 3,
        PaymentError::NonceAlreadyUsed => 4,
        PaymentError::InvalidAmount => 5,
        PaymentError::OrderExpired => 6,
        PaymentError::InvalidToken => 7,
        PaymentError::InvalidName => 8,
        PaymentError::InvalidDescription => 9,
        PaymentError::InvalidContactInfo => 10,
        PaymentError::MerchantAlreadyExists => 11,
        PaymentError::TransactionLimitExceeded => 12,
        PaymentError::InvalidTransactionLimit => 13,
        PaymentError::MerchantInactive => 14,
        PaymentError::AdminNotFound => 15,
        PaymentError::ContractPaused => 16,
        PaymentError::AlreadyPaused => 17,
        PaymentError::InvalidFeeRate => 18,
        PaymentError::PaymentNotFound => 19,
        PaymentError::InvalidThreshold => 20,
        PaymentError::ThresholdNotMet => 21,
        PaymentError::AlreadyExecuted => 22,
        PaymentError::AlreadyCancelled => 23,
        PaymentError::PaymentExpired => 24,
        PaymentError::AlreadySigned => 25,
        PaymentError::NotASigner => 26,
        PaymentError::InvalidStatus => 27,
        PaymentError::EmptySignersList => 28,
        PaymentError::DuplicateSigner => 29,
        PaymentError::InvalidPaymentId => 30,
        PaymentError::RefundNotFound => 31,
        PaymentError::NotRefundable => 32,
        PaymentError::RefundWindowExceeded => 33,
        PaymentError::ExceedsOriginalAmount => 34,
        PaymentError::InvalidRefundStatus => 35,
        PaymentError::InsufficientBalance => 36,
    }
}

/// The message that describes each error.
pub open spec fn spec_payment_error_message(e: PaymentError) -> Seq<char> {
    match e {
        PaymentError::NotAuthorized => "Not authorized"@,
        PaymentError::MerchantNotFound => "Merchant not found or inactive"@,
        PaymentError::InvalidSignature => "Invalid merchant signature"@,
        PaymentError::NonceAlreadyUsed => "Payment nonce already used"@,
        PaymentError::InvalidAmount => "Invalid amount"@,
        PaymentError::OrderExpired => "Payment order has expired"@,
        PaymentError::InvalidToken => "Token not supported by merchant"@,
        PaymentError::InvalidName => "Invalid merchant name (must be 1-100 characters)"@,
        PaymentError::InvalidDescription => "Invalid description (max 500 characters)"@,
        PaymentError::InvalidContactInfo => "Invalid contact info (max 200 characters)"@,
        PaymentError::MerchantAlreadyExists => "Merchant already registered"@,
        PaymentError::TransactionLimitExceeded => "Transaction amount exceeds merchant limit"@,
        PaymentError::InvalidTransactionLimit => "Invalid transaction limit (must be positive)"@,
        PaymentError::MerchantInactive => "Merchant account is inactive"@,
        PaymentError::AdminNotFound => "Admin not found"@,
        PaymentError::ContractPaused => "Contract is paused"@,
        PaymentError::AlreadyPaused => "Contract is already paused"@,
        PaymentError::InvalidFeeRate => "Invalid fee rate"@,
        PaymentError::PaymentNotFound => "Multi-signature payment not found"@,
        PaymentError::InvalidThreshold => "Invalid threshold value"@,
        PaymentError::ThresholdNotMet => "Signature threshold not met"@,
        PaymentError::AlreadyExecuted => "Payment already executed"@,
        PaymentError::AlreadyCancelled => "Payment already cancelled"@,
        PaymentError::PaymentExpired => "Payment has expired"@,
        PaymentError::AlreadySigned => "Already signed by this signer"@,
        PaymentError::NotASigner => "Not a valid signer for this payment"@,
        PaymentError::InvalidStatus => "Invalid payment status"@,
        PaymentError::EmptySignersList => "Signers list cannot be empty"@,
        PaymentError::DuplicateSigner => "Duplicate signer in list"@,
        PaymentError::InvalidPaymentId => "Invalid payment ID"@,
        PaymentError::RefundNotFound => "Refund not found"@,
        PaymentError::NotRefundable => "Payment not refundable"@,
        PaymentError::RefundWindowExceeded => "Refund window exceeded"@,
        PaymentError::ExceedsOriginalAmount => "Refund exceeds original amount"@,
        PaymentError::InvalidRefundStatus => "Invalid refund status transition"@,
        PaymentError::InsufficientBalance => "Insufficient balance for refund"@,
    }
}

impl PaymentError {
    /// The contract error code (1 to 36) under which the host reports the error.
    pub fn code(&self) -> (c: u32)
        ensures
            c == spec_payment_error_code(*self),
    {
        match self {
            PaymentError::NotAuthorized => 1,
            PaymentError::MerchantNotFound => 2,
            PaymentError::InvalidSignature => 3,
            PaymentError::NonceAlreadyUsed => 4,
            PaymentError::InvalidAmount => 5,
            PaymentError::OrderExpired => 6,
            PaymentError::InvalidToken => 7,
            PaymentError::InvalidName => 8,
            PaymentError::InvalidDescription => 9,
            PaymentError::InvalidContactInfo => 10,
            PaymentError::MerchantAlreadyExists => 11,
            PaymentError::TransactionLimitExceeded => 12,
            PaymentError::InvalidTransactionLimit => 13,
            PaymentError::MerchantInactive => 14,
            PaymentError::AdminNotFound => 15,
            PaymentError::ContractPaused => 16,
            PaymentError::AlreadyPaused => 17,
            PaymentError::InvalidFeeRate => 18,
            PaymentError::PaymentNotFound => 19,
            PaymentError::InvalidThreshold => 20,
            PaymentError::ThresholdNotMet => 21,
            PaymentError::AlreadyExecuted => 22,
            PaymentError::AlreadyCancelled => 23,
            PaymentError::PaymentExpired => 24,
            PaymentError::AlreadySigned => 25,
            PaymentError::NotASigner => 26,
            PaymentError::InvalidStatus => 27,
            PaymentError::EmptySignersList => 28,
            PaymentError::DuplicateSigner => 29,
            PaymentError::InvalidPaymentId => 30,
            PaymentError::RefundNotFound => 31,
            PaymentError::NotRefundable => 32,
            PaymentError::RefundWindowExceeded => 33,
            PaymentError::ExceedsOriginalAmount => 34,
            PaymentError::InvalidRefundStatus => 35,
            PaymentError::InsufficientBalance => 36,
        }
    }

    /// The error with the given contract code, if there is one.
    pub fn from_code(c: u32) -> (r: Option<PaymentError>)
        ensures
            match r {
                Some(e) => spec_payment_error_code(e) == c,
                None => c < 1 || c > 36,
            },
    {
        match c {
            1 => Some(PaymentError::NotAuthorized),
            2 => Some(PaymentError::MerchantNotFound),
            3 => Some(PaymentError::InvalidSignature),
            4 => Some(PaymentError::NonceAlreadyUsed),
            5 => Some(PaymentError::InvalidAmount),
            6 => Some(PaymentError::OrderExpired),
            7 => Some(PaymentError::InvalidToken),
            8 => Some(PaymentError::InvalidName),
            9 => Some(PaymentError::InvalidDescription),
            10 => Some(PaymentError::InvalidContactInfo),
            11 => Some(PaymentError::MerchantAlreadyExists),
            12 => Some(PaymentError::TransactionLimitExceeded),
            13 => Some(PaymentError::InvalidTransactionLimit),
            14 => Some(PaymentError::MerchantInactive),
            15 => Some(PaymentError::AdminNotFound),
            16 => Some(PaymentError::ContractPaused),
            17 => Some(PaymentError::AlreadyPaused),
            18 => Some(PaymentError::InvalidFeeRate),
            19 => Some(PaymentError::PaymentNotFound),
            20 => Some(PaymentError::InvalidThreshold),
            21 => Some(PaymentError::ThresholdNotMet),
            22 => Some(PaymentError::AlreadyExecuted),
            23 => Some(PaymentError::AlreadyCancelled),
            24 => Some(PaymentError::PaymentExpired),
            25 => Some(PaymentError::AlreadySigned),
            26 => Some(PaymentError::NotASigner),
            27 => Some(PaymentError::InvalidStatus),
            28 => Some(PaymentError::EmptySignersList),
            29 => Some(PaymentError::DuplicateSigner),
            30 => Some(PaymentError::InvalidPaymentId),
            31 => Some(PaymentError::RefundNotFound),
            32 => Some(PaymentError::NotRefundable),
            33 => Some(PaymentError::RefundWindowExceeded),
            34 => Some(PaymentError::ExceedsOriginalAmount),
            35 => Some(PaymentError::InvalidRefundStatus),
            36 => Some(PaymentError::InsufficientBalance),
            _ => None,
        }
    }

    /// A human-readable message for the error.
    pub fn message(&self) -> (m: &'static str)
        ensures
            m@ == spec_payment_error_message(*self),
    {
        match self {
            PaymentError::NotAuthorized => "Not authorized",
            PaymentError::MerchantNotFound => "Merchant not found or inactive",
            PaymentError::InvalidSignature => "Invalid merchant signature",
            PaymentError::NonceAlreadyUsed => "Payment nonce already used",
            PaymentError::InvalidAmount => "Invalid amount",
            PaymentError::OrderExpired => "Payment order has expired",
            PaymentError::InvalidToken => "Token not supported by merchant",
            PaymentError::InvalidName => "Invalid merchant name (must be 1-100 characters)",
            PaymentError::InvalidDescription => "Invalid description (max 500 characters)",
            PaymentError::InvalidContactInfo => "Invalid contact info (max 200 characters)",
            PaymentError::MerchantAlreadyExists => "Merchant already registered",
            PaymentError::TransactionLimitExceeded => "Transaction amount exceeds merchant limit",
            PaymentError::InvalidTransactionLimit => "Invalid transaction limit (must be positive)",
            PaymentError::MerchantInactive => "Merchant account is inactive",
            PaymentError::AdminNotFound => "Admin not found",
            PaymentError::ContractPaused => "Contract is paused",
            PaymentError::AlreadyPaused => "Contract is already paused",
            PaymentError::InvalidFeeRate => "Invalid fee rate",
            PaymentError::PaymentNotFound => "Multi-signature payment not found",
            PaymentError::InvalidThreshold => "Invalid threshold value",
            PaymentError::ThresholdNotMet => "Signature threshold not met",
            PaymentError::AlreadyExecuted => "Payment already executed",
            PaymentError::AlreadyCancelled => "Payment already cancelled",
            PaymentError::PaymentExpired => "Payment has expired",
            PaymentError::AlreadySigned => "Already signed by this signer",
            PaymentError::NotASigner => "Not a valid signer for this payment",
            PaymentError::InvalidStatus => "Invalid payment status",
            PaymentError::EmptySignersList => "Signers list cannot be empty",
            PaymentError::DuplicateSigner => "Duplicate signer in list",
            PaymentError::InvalidPaymentId => "Invalid payment ID",
            PaymentError::RefundNotFound => "Refund not found",
            PaymentError::NotRefundable => "Payment not refundable",
            PaymentError::RefundWindowExceeded => "Refund window exceeded",
            PaymentError::ExceedsOriginalAmount => "Refund exceeds original amount",
            PaymentError::InvalidRefundStatus => "Invalid refund status transition",
            PaymentError::InsufficientBalance => "Insufficient balance for refund",
        }
    }
}

} // verus!
