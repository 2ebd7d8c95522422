//! Greeting counter: counts how often its authority has greeted.

use crate::pubkey::Pubkey;
use vstd::prelude::*;

verus! {

/// The counter and who may advance it.
#[derive(Clone, Copy, Debug, PartialEq, Eq)]
pub struct GreetingAccount {
    pub counter: u32,
    pub authority: Pubkey,
}

/// The records that [`initialize`] touches.
#[derive(Clone, Debug, PartialEq, Eq)]
pub struct Initialize {
    pub greeting_account: GreetingAccount,
    /// The signer that pays for the new record.
    pub user: Pubkey,
}

/// The records that [`increment_greeting`] touches.
#[derive(Clone, Debug, PartialEq, Eq)]
pub struct IncrementGreeting {
    pub greeting_account: GreetingAccount,
    pub authority: Pubkey,
}

/// Sets up the counter at zero for `authority`.
pub fn initialize(ctx: &mut Initialize, authority: Pubkey)
    ensures
        final(ctx).greeting_account == (GreetingAccount { counter: 0, authority }),
        final(ctx).user == old(ctx).user,
{
    ctx.greeting_account.counter = 0;
    ctx.greeting_account.authority = authority;
}

/// Counts one more greeting and returns the new count.
pub fn increment_greeting(ctx: &mut IncrementGreeting) -> (count: u32)
    requires
        old(ctx).greeting_account.counter < u32::MAX,
    ensures
        count == old(ctx).greeting_account.counter + 1,
        final(ctx).greeting_account == (GreetingAccount {
            counter: count,
            authority: old(ctx).greeting_account.authority,
        }),
        final(ctx).authority == old(ctx).authority,
{
    ctx.greeting_account.counter += 1;
    ctx.greeting_account.counter
}

} // verus!
