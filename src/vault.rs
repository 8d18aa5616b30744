use vstd::prelude::*;

use crate::game::MyError;

verus! {

/// Moves `amount` from one balance to another as one step: either both
/// balances change or neither does.
pub fn transfer(from: &mut u64, to: &mut u64, amount: u64) -> (r: Result<(), MyError>)
    requires
        *old(from) + *old(to) <= u64::MAX,
    ensures
        *old(from) < amount ==> r == Err::<(), MyError>(MyError::InsufficientFunds) && *final(from)
            == *old(from) && *final(to) == *old(to),
        *old(from) >= amount ==> r is Ok && *final(from) == *old(from) - amount && *final(to)
            == *old(to) + amount,
{
    if *from < amount {
        return Err(MyError::InsufficientFunds);
    }
    *from = *from - amount;
    *to = *to + amount;
    Ok(())
}

/// Moves everything that `from` holds to `to`.
pub fn drain(from: &mut u64, to: &mut u64)
    requires
        *old(from) + *old(to) <= u64::MAX,
    ensures
        *final(from) == 0,
        *final(to) == *old(to) + *old(from),
{
    *to = *to + *from;
    *from = 0;
}

} // verus!
