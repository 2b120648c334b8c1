//! What the chain holds for a channel, and the balances that follow from it.

use crate::error::Error;
use crate::primitives::{pow128, Party, U256};
use vstd::prelude::*;

verus! {

/// What the chain shows of the channel account.
#[derive(Clone, Copy, Debug, PartialEq, Eq)]
pub enum Account {
    /// No code at the address yet: only its native balance is known.
    Undeployed { balance: U256 },
    /// The contract is deployed and keeps one balance for each party.
    Deployed { balance_a: u128, balance_b: u128 },
}

impl Account {
    /// What the chain holds for party A. Before deployment the low 128 bits
    /// of all that the address holds count as A's.
    pub open spec fn held_a(self) -> nat {
        match self {
            Account::Undeployed { balance } => (balance@ as int % pow128()) as nat,
            Account::Deployed { balance_a, .. } => balance_a as nat,
        }
    }

    /// What the chain holds for party B: nothing before deployment.
    pub open spec fn held_b(self) -> nat {
        match self {
            Account::Undeployed { .. } => 0,
            Account::Deployed { balance_b, .. } => balance_b as nat,
        }
    }

    /// What the chain holds for party A.
    pub fn on_chain_a(&self) -> (r: u128)
        ensures
            r == self.held_a(),
    {
        match self {
            Account::Undeployed { balance } => balance.low_u128(),
            Account::Deployed { balance_a, .. } => *balance_a,
        }
    }

    /// What the chain holds for party B.
    pub fn on_chain_b(&self) -> (r: u128)
        ensures
            r == self.held_b(),
    {
        match self {
            Account::Undeployed { .. } => 0,
            Account::Deployed { balance_b, .. } => *balance_b,
        }
    }
}

/// The balances of A and B once a net transfer value of `value_transfer` is
/// taken from A's holding and added to B's. A holding that does not cover the
/// shift is insufficient; a result above 128 bits is out of range.
pub open spec fn spec_balances(held_a: nat, held_b: nat, value_transfer: int) -> Result<
    (u128, u128),
    Error,
> {
    let a = held_a - value_transfer;
    let b = held_b + value_transfer;
    if a < 0 || b < 0 {
        Err(Error::InsufficientBalance)
    } else if a > u128::MAX || b > u128::MAX {
        Err(Error::AmountOutOfRange)
    } else {
        Ok((a as u128, b as u128))
    }
}

/// The pair with the first component of the party `us` first.
pub open spec fn spec_sorted(us: Party, pair: (u128, u128)) -> (u128, u128) {
    match us {
        Party::A => pair,
        Party::B => (pair.1, pair.0),
    }
}

/// The size of a negative number.
fn magnitude(v: i128) -> (r: u128)
    requires
        v < 0,
    ensures
        r == -v,
{
    let below: u128 = (-(v + 1)) as u128;
    below + 1
}

/// Shifts the holdings of A and B by a net transfer value.
pub fn balances(held_a: u128, held_b: u128, value_transfer: i128) -> (r: Result<(u128, u128), Error>)
    ensures
        r == spec_balances(held_a as nat, held_b as nat, value_transfer as int),
{
    if value_transfer >= 0 {
        let shift: u128 = value_transfer as u128;
        if held_a < shift {
            return Err(Error::InsufficientBalance);
        }
        match held_b.checked_add(shift) {
            Some(b) => Ok((held_a - shift, b)),
            None => Err(Error::AmountOutOfRange),
        }
    } else {
        let shift: u128 = magnitude(value_transfer);
        if held_b < shift {
            return Err(Error::InsufficientBalance);
        }
        match held_a.checked_add(shift) {
            Some(a) => Ok((a, held_b - shift)),
            None => Err(Error::AmountOutOfRange),
        }
    }
}

/// Puts the balance of the party `us` first.
pub fn sorted(us: Party, pair: (u128, u128)) -> (r: (u128, u128))
    ensures
        r == spec_sorted(us, pair),
{
    match us {
        Party::A => pair,
        Party::B => (pair.1, pair.0),
    }
}

/// What the chain shows of a deployed channel account and of its dispute.
#[derive(Clone, Copy, Debug, PartialEq, Eq)]
pub struct DisputeReading {
    /// When the dispute times out; zero where none is open.
    pub timeout: u64,
    /// The net transfer value under dispute.
    pub value: i128,
    /// The nonce at which the dispute started.
    pub start_nonce: u128,
    /// The contract's balance of party A.
    pub balance_a: u128,
    /// The contract's balance of party B.
    pub balance_b: u128,
}

/// An open dispute, seen from one party.
#[derive(Clone, Copy, Debug, PartialEq, Eq, Structural)]
pub struct DisputeInfo {
    pub nonce: u128,
    pub timeout: u64,
    pub withdrawal_ours: i128,
    pub withdrawal_theirs: i128,
}

/// What a reading says of the dispute, for the party `us`: nothing where the
/// account is not deployed or no dispute is open; else the contract's
/// balances with the disputed value taken from A's and added to B's, own
/// first. A result that leaves the signed 128 bits is out of range.
pub open spec fn spec_dispute_info(us: Party, reading: Option<DisputeReading>) -> Result<
    Option<DisputeInfo>,
    Error,
> {
    match reading {
        None => Ok(None),
        Some(r) => if r.timeout == 0 {
            Ok(None)
        } else {
            let a = r.balance_a - r.value;
            let b = r.balance_b + r.value;
            if a < i128::MIN || a > i128::MAX || b < i128::MIN || b > i128::MAX {
                Err(Error::AmountOutOfRange)
            } else {
                Ok(
                    Some(
                        DisputeInfo {
                            nonce: r.start_nonce,
                            timeout: r.timeout,
                            withdrawal_ours: if us == Party::A {
                                a as i128
                            } else {
                                b as i128
                            },
                            withdrawal_theirs: if us == Party::A {
                                b as i128
                            } else {
                                a as i128
                            },
                        },
                    ),
                )
            }
        },
    }
}

/// `held - value`, where it fits.
fn signed_less(held: u128, value: i128) -> (r: Option<i128>)
    ensures
        r == if i128::MIN <= held - value <= i128::MAX {
            Some((held - value) as i128)
        } else {
            None::<i128>
        },
{
    if held <= 0x7fff_ffff_ffff_ffff_ffff_ffff_ffff_ffff {
        (held as i128).checked_sub(value)
    } else if value <= 0 {
        None
    } else {
        // held > i128::MAX and value > 0
        let shift: u128 = value as u128;
        let rest: u128 = held - shift;
        if rest <= 0x7fff_ffff_ffff_ffff_ffff_ffff_ffff_ffff {
            Some(rest as i128)
        } else {
            None
        }
    }
}

/// `held + value`, where it fits.
fn signed_more(held: u128, value: i128) -> (r: Option<i128>)
    ensures
        r == if i128::MIN <= held + value <= i128::MAX {
            Some((held + value) as i128)
        } else {
            None::<i128>
        },
{
    if held <= 0x7fff_ffff_ffff_ffff_ffff_ffff_ffff_ffff {
        (held as i128).checked_add(value)
    } else if value >= 0 {
        None
    } else {
        let shift: u128 = magnitude(value);
        let rest: u128 = held - shift;
        if rest <= 0x7fff_ffff_ffff_ffff_ffff_ffff_ffff_ffff {
            Some(rest as i128)
        } else {
            None
        }
    }
}

/// Interprets a reading of the dispute state for the party `us`.
pub fn dispute_info(us: Party, reading: Option<DisputeReading>) -> (r: Result<
    Option<DisputeInfo>,
    Error,
>)
    ensures
        r == spec_dispute_info(us, reading),
{
    match reading {
        None => Ok(None),
        Some(seen) => {
            if seen.timeout == 0 {
                return Ok(None);
            }
            let a = signed_less(seen.balance_a, seen.value);
            let b = signed_more(seen.balance_b, seen.value);
            match (a, b) {
                (Some(a), Some(b)) => Ok(
                    Some(
                        match us {
                            Party::A => DisputeInfo {
                                nonce: seen.start_nonce,
                                timeout: seen.timeout,
                                withdrawal_ours: a,
                                withdrawal_theirs: b,
                            },
                            Party::B => DisputeInfo {
                                nonce: seen.start_nonce,
                                timeout: seen.timeout,
                                withdrawal_ours: b,
                                withdrawal_theirs: a,
                            },
                        },
                    ),
                ),
                _ => Err(Error::AmountOutOfRange),
            }
        },
    }
}

} // verus!
