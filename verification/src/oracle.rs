use crate::errors::VaultError;
use vstd::prelude::*;

verus! {

/// Largest oracle price that is accepted: 1e24.
///
/// Any value above it is almost certainly a feed misconfiguration or a
/// manipulation attempt.
pub const ORACLE_PRICE_SANITY_CAP: i128 = 1_000_000_000_000_000_000_000_000;

/// Age in seconds at which an oracle price is stale, unless the admin narrows it.
pub const ORACLE_DEFAULT_MAX_AGE_SECS: u64 = 3_600;

/// Why an oracle price is refused at time `now`: it is not positive, it is
/// above the sanity cap, or it is older than `max_age_secs`. A price from the
/// future has age zero.
pub open spec fn oracle_price_error(
    now: u64,
    price: i128,
    updated_at: u64,
    max_age_secs: u64,
) -> Option<VaultError> {
    if price <= 0 {
        Some(VaultError::OraclePriceZero)
    } else if price > ORACLE_PRICE_SANITY_CAP {
        Some(VaultError::OraclePriceTooHigh)
    } else if now > updated_at && now - updated_at > max_age_secs {
        Some(VaultError::OraclePriceStale)
    } else {
        None
    }
}

/// Validates an oracle-supplied price at ledger time `now`.
pub fn validate_oracle_price(now: u64, price: i128, updated_at: u64, max_age_secs: u64) -> (r:
    Result<(), VaultError>)
    ensures
        r == (match oracle_price_error(now, price, updated_at, max_age_secs) {
            Some(e) => Err::<(), VaultError>(e),
            None => Ok(()),
        }),
{
    if price <= 0 {
        return Err(VaultError::OraclePriceZero);
    }
    if price > ORACLE_PRICE_SANITY_CAP {
        return Err(VaultError::OraclePriceTooHigh);
    }
    let age: u64 = now.saturating_sub(updated_at);
    if age > max_age_secs {
        return Err(VaultError::OraclePriceStale);
    }
    Ok(())
}

} // verus!
