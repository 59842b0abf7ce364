//! The token ledger as the engine sees it.
//!
//! The engine never moves tokens itself. An operation that succeeds returns
//! the movements that belong to it, in the order in which they are to be
//! carried out, and the surrounding program hands them to the token ledger.
//! The ledger is all-or-nothing: if it refuses one movement the whole
//! operation is void and the new registry and bounty values are dropped.
//!
//! `Ledger` is the mathematical picture of the custody accounts that the laws
//! of this crate are stated over.

use vstd::prelude::*;

verus! {

/// A holder of tokens that an operation can move tokens from or to.
#[derive(Clone, Copy, Debug, PartialEq, Eq, Structural)]
pub enum Party {
    /// The token account of the bounty's player.
    Player,
    /// The token account of the registry's authority.
    Authority,
    /// The house vault.
    HouseVault,
    /// The jackpot vault.
    SingularityVault,
    /// The protocol treasury.
    ProtocolTreasury,
}

/// One instruction to the token ledger.
#[derive(Clone, Copy, Debug, PartialEq, Eq)]
pub enum Movement {
    /// Move `amount` from one party to another.
    Transfer { from: Party, to: Party, amount: u64 },
    /// Destroy `amount` held by a party.
    Burn { from: Party, amount: u64 },
}

/// What a successful operation hands back: the notification to publish and
/// the movements to carry out.
#[derive(Debug, PartialEq, Eq)]
pub struct Outcome<E> {
    /// The notification that describes what happened.
    pub event: E,
    /// The ledger movements of the operation, in order.
    pub movements: Vec<Movement>,
}

/// Balances of the five parties and the amount burned so far.
pub struct Ledger {
    pub player: int,
    pub authority: int,
    pub house: int,
    pub singularity: int,
    pub treasury: int,
    pub burned: int,
}

impl Ledger {
    /// What a party holds.
    pub open spec fn balance(self, party: Party) -> int {
        match party {
            Party::Player => self.player,
            Party::Authority => self.authority,
            Party::HouseVault => self.house,
            Party::SingularityVault => self.singularity,
            Party::ProtocolTreasury => self.treasury,
        }
    }

    /// The ledger with `amount` added to what a party holds; a negative
    /// amount takes away.
    pub open spec fn credit(self, party: Party, amount: int) -> Ledger {
        match party {
            Party::Player => Ledger { player: self.player + amount, ..self },
            Party::Authority => Ledger { authority: self.authority + amount, ..self },
            Party::HouseVault => Ledger { house: self.house + amount, ..self },
            Party::SingularityVault => Ledger { singularity: self.singularity + amount, ..self },
            Party::ProtocolTreasury => Ledger { treasury: self.treasury + amount, ..self },
        }
    }

    /// The party that a movement takes from, and how much.
    pub open spec fn debit_of(movement: Movement) -> (Party, int) {
        match movement {
            Movement::Transfer { from, to, amount } => (from, amount as int),
            Movement::Burn { from, amount } => (from, amount as int),
        }
    }

    /// The ledger after one movement.
    pub open spec fn apply(self, movement: Movement) -> Ledger {
        match movement {
            Movement::Transfer { from, to, amount } => self.credit(from, -(amount as int)).credit(
                to,
                amount as int,
            ),
            Movement::Burn { from, amount } => {
                let debited = self.credit(from, -(amount as int));
                Ledger { burned: debited.burned + amount, ..debited }
            },
        }
    }

    /// The ledger after a list of movements, carried out first to last.
    pub open spec fn apply_all(self, movements: Seq<Movement>) -> Ledger
        decreases movements.len(),
    {
        if movements.len() == 0 {
            self
        } else {
            self.apply(movements.first()).apply_all(movements.drop_first())
        }
    }

    /// Whether the ledger can carry out every movement of the list in turn:
    /// no party is asked for more than it holds at that point.
    pub open spec fn covers(self, movements: Seq<Movement>) -> bool
        decreases movements.len(),
    {
        if movements.len() == 0 {
            true
        } else {
            let (from, amount) = Ledger::debit_of(movements.first());
            &&& self.balance(from) >= amount
            &&& self.apply(movements.first()).covers(movements.drop_first())
        }
    }

    /// All tokens in existence: what the five parties hold together.
    pub open spec fn supply(self) -> int {
        self.player + self.authority + self.house + self.singularity + self.treasury
    }
}

/// The amount that a list of movements burns.
pub open spec fn burned_by(movements: Seq<Movement>) -> int
    decreases movements.len(),
{
    if movements.len() == 0 {
        0
    } else {
        let rest = burned_by(movements.drop_first());
        match movements.first() {
            Movement::Transfer { .. } => rest,
            Movement::Burn { from, amount } => amount + rest,
        }
    }
}

} // verus!
