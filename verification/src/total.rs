use crate::error::Error;
use vstd::prelude::*;

verus! {

/// Whether a submission of `value` is accepted when the ceiling is
/// `max_value` and the stored total is `total`: the value is within the
/// ceiling, and adding it to the total stays within `u32`.
pub open spec fn accepts(max_value: u32, total: Option<u32>, value: u32) -> bool {
    &&& value <= max_value
    &&& total matches Some(current) ==> current + value <= u32::MAX
}

/// The amount that a stored total stands for: nothing has been added to a
/// total that was never set.
pub open spec fn amount(total: Option<u32>) -> nat {
    match total {
        Some(current) => current as nat,
        None => 0,
    }
}

/// The outcome of submitting `value`: the new total, or the reason for the
/// rejection. The ceiling is tested first, so a value above it is reported as
/// such whatever the stored total is.
pub open spec fn spec_next_total(
    max_value: u32,
    total: Option<u32>,
    value: u32,
) -> Result<u32, Error> {
    if value > max_value {
        Err(Error::ValueBiggerThanMax)
    } else if amount(total) + value > u32::MAX {
        Err(Error::StorageOverflow)
    } else {
        Ok((amount(total) + value) as u32)
    }
}

/// Decides one submission without touching any state.
///
/// `total` is the stored total, `None` if it was never set. On `Ok(n)` the
/// caller stores `n` and announces it; on `Err` it does neither.
pub fn next_total(max_value: u32, total: Option<u32>, value: u32) -> (result: Result<u32, Error>)
    ensures
        result == spec_next_total(max_value, total, value),
        result is Ok <==> accepts(max_value, total, value),
        result == Err::<u32, Error>(Error::ValueBiggerThanMax) <==> value > max_value,
        result == Err::<u32, Error>(Error::StorageOverflow) <==> (value <= max_value
            && amount(total) + value > u32::MAX),
        result matches Ok(n) ==> n == amount(total) + value,
{
    if value > max_value {
        return Err(Error::ValueBiggerThanMax);
    }
    match total {
        None => Ok(value),
        Some(current) => match current.checked_add(value) {
            Some(sum) => Ok(sum),
            None => Err(Error::StorageOverflow),
        },
    }
}

} // verus!
