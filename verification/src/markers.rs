//! Message markers that errors carry and that the error classification and
//! the message sanitizer look for.
use vstd::prelude::*;

verus! {

/// Marks a refresh failure that only a new login can resolve.
pub const REFRESH_RELOGIN_REQUIRED_PREFIX: &'static str = "REFRESH_RELOGIN_REQUIRED:";

/// Marks a write that the local read-only session mode refused.
pub const LOCAL_READ_ONLY_ERROR_PREFIX: &'static str = "LOCAL_READ_ONLY:";

/// Marks an ISIN outside the locally configured allow list.
pub const LOCAL_TRADE_CONTROL_ISIN_NOT_ALLOWED_PREFIX: &'static str =
    "LOCAL_TRADE_CONTROL_ISIN_NOT_ALLOWED:";

/// Marks an ISIN on the locally configured deny list.
pub const LOCAL_TRADE_CONTROL_ISIN_DENIED_PREFIX: &'static str = "LOCAL_TRADE_CONTROL_ISIN_DENIED:";

/// Marks an order above the locally configured notional limit.
pub const LOCAL_TRADE_CONTROL_ORDER_NOTIONAL_EXCEEDED_PREFIX: &'static str =
    "LOCAL_TRADE_CONTROL_ORDER_NOTIONAL_EXCEEDED:";

pub const BROKER_TRANSACTION_NOT_FOUND_ERROR_PREFIX: &'static str = "Broker transaction not found:";

pub const BROKER_PORTFOLIO_GROUP_NOT_FOUND_ERROR_PREFIX: &'static str =
    "Broker portfolio group not found:";

pub const BROKER_PORTFOLIO_GROUP_INVALID_CHARACTERS_ERROR_PREFIX: &'static str =
    "Broker portfolio group invalid characters:";

pub const BROKER_PORTFOLIO_GROUPS_QUOTA_EXCEEDED_ERROR_PREFIX: &'static str =
    "Broker portfolio groups quota exceeded:";

pub const BROKER_PORTFOLIO_GROUPS_LIMIT_REACHED_ERROR_PREFIX: &'static str =
    "Broker portfolio groups limit reached:";

pub const BROKER_PORTFOLIO_GROUP_ALREADY_EXISTS_ERROR_PREFIX: &'static str =
    "Broker portfolio group already exists:";

pub const BROKER_PORTFOLIO_GROUP_CANNOT_BE_REMOVED_ERROR_PREFIX: &'static str =
    "Broker portfolio group cannot be removed:";

/// The message shown when the session's DPoP key is gone or was replaced.
pub const DPOP_SESSION_KEY_RELOGIN_MESSAGE: &'static str =
    "The DPoP signing key for the current session is missing or changed; run 'sc login' again.";

pub const DEVICE_LOCKED_ERROR_CODE: &'static str = "device_locked";

pub const DEVICE_LOCKED_ERROR_MESSAGE: &'static str =
    "The Mac is locked, so the Secure Enclave signing key cannot be used. Unlock the Mac and retry.";

pub const DEVICE_LOCKED_ERROR_HINT: &'static str =
    "If the Mac is already unlocked, check Secure Enclave and keychain access.";

} // verus!
