//! The stored state and the values that the host hands in with a call.

use vstd::prelude::*;

verus! {

/// The texts of a list of strings, in order.
pub open spec fn names(v: Seq<String>) -> Seq<Seq<char>> {
    Seq::new(v.len(), |i: int| v[i]@)
}

/// An amount of one denomination.
#[derive(Clone, Debug, PartialEq, Eq)]
pub struct Coin {
    pub denom: String,
    pub amount: u128,
}

impl View for Coin {
    type V = (Seq<char>, nat);

    open spec fn view(&self) -> (Seq<char>, nat) {
        (self.denom@, self.amount as nat)
    }
}

/// Who issued a call, and the funds attached to it.
#[derive(Clone, Debug, PartialEq, Eq)]
pub struct MessageInfo {
    pub sender: String,
    pub funds: Vec<Coin>,
}

/// The two stored records: the registry, in insertion order, and the
/// denomination in which donations are split.
#[derive(Clone, Debug, PartialEq, Eq)]
pub struct State {
    pub admins: Vec<String>,
    pub donation_denom: String,
}

impl State {
    /// The registry as a sequence of address texts.
    pub open spec fn registry(&self) -> Seq<Seq<char>> {
        names(self.admins@)
    }

    /// The donation denomination as text.
    pub open spec fn denom(&self) -> Seq<char> {
        self.donation_denom@
    }

    /// No address stands in the registry twice.
    pub open spec fn distinct(&self) -> bool {
        self.registry().no_duplicates()
    }
}

/// The amount that a list of funds carries in `denom`: that of the first coin
/// of this denomination, and nothing where there is none.
pub open spec fn attached(funds: Seq<Coin>, denom: Seq<char>) -> nat
    decreases funds.len(),
{
    if funds.len() == 0 {
        0
    } else if funds[0].denom@ == denom {
        funds[0].amount as nat
    } else {
        attached(funds.drop_first(), denom)
    }
}

} // verus!
