//! The ledger, as the gateway sees it.
//!
//! The ledger keeps the token balances and is not part of this library. The gateway hands
//! it instructions and is told how they ended. The types of those instructions and
//! answers are defined here, together with a mathematical description of what the ledger
//! is relied on to do with them. That description is only used to state what the
//! gateway's operations achieve; no code here keeps balances.

use crate::address::Address;
use vstd::prelude::*;

verus! {

/// Asks the ledger to create an entry for a new token at `entry`.
#[derive(Clone, Copy, Debug, PartialEq, Eq)]
pub struct EntryRequest {
    pub entry: Address,
    pub precision: u8,
    pub mint_authority: Address,
    pub freeze_authority: Address,
}

/// Asks the ledger to open an empty holding account of `entry` at `account`, owned by `owner`.
#[derive(Clone, Copy, Debug, PartialEq, Eq)]
pub struct HoldingRequest {
    pub account: Address,
    pub entry: Address,
    pub owner: Address,
}

/// Asks the ledger to mint `amount` base units of `entry` into `account`, on the word of
/// `authority`.
#[derive(Clone, Copy, Debug, PartialEq, Eq)]
pub struct MintRequest {
    pub entry: Address,
    pub account: Address,
    pub authority: Address,
    pub amount: u64,
}

/// How the ledger answered.
#[derive(Clone, Copy, Debug, PartialEq, Eq, Structural)]
pub enum LedgerReply {
    /// Everything asked for was done.
    Accepted,
    /// Nothing was done: a location that had to be allocated is already in use.
    Occupied,
    /// Nothing was done: the ledger refused, for instance because the authority is not the
    /// entry's mint authority or the supply would overflow.
    Rejected,
}

/// A ledger entry: one token.
pub struct Entry {
    pub precision: u8,
    pub mint_authority: Address,
    pub freeze_authority: Address,
    pub supply: nat,
}

/// A holding account: a balance of one token.
pub struct Holding {
    pub entry: Address,
    pub owner: Address,
    pub balance: nat,
}

/// The state of the ledger: its entries and holding accounts, each at its own location.
#[verifier::ext_equal]
pub struct Ledger {
    pub entries: Map<Address, Entry>,
    pub holdings: Map<Address, Holding>,
}

impl Ledger {
    /// The ledger before anything was created.
    pub open spec fn empty() -> Ledger {
        Ledger { entries: Map::empty(), holdings: Map::empty() }
    }

    /// Whether the ledger keeps anything at `location`.
    pub open spec fn occupied(self, location: Address) -> bool {
        self.entries.contains_key(location) || self.holdings.contains_key(location)
    }

    /// The balance of the holding account at `account`, zero where there is none.
    pub open spec fn balance(self, account: Address) -> nat {
        if self.holdings.contains_key(account) {
            self.holdings[account].balance
        } else {
            0
        }
    }

    /// Creating an entry: refused where the location is in use, else the entry exists with
    /// the requested settings and no supply.
    pub open spec fn create_entry(self, request: EntryRequest) -> (Ledger, LedgerReply) {
        if self.occupied(request.entry) {
            (self, LedgerReply::Occupied)
        } else {
            (
                Ledger {
                    entries: self.entries.insert(
                        request.entry,
                        Entry {
                            precision: request.precision,
                            mint_authority: request.mint_authority,
                            freeze_authority: request.freeze_authority,
                            supply: 0,
                        },
                    ),
                    holdings: self.holdings,
                },
                LedgerReply::Accepted,
            )
        }
    }

    /// Opening a holding account: refused where the location is in use or the entry does not
    /// exist, else the account exists with a balance of zero.
    pub open spec fn open_holding(self, request: HoldingRequest) -> (Ledger, LedgerReply) {
        if self.occupied(request.account) {
            (self, LedgerReply::Occupied)
        } else if !self.entries.contains_key(request.entry) {
            (self, LedgerReply::Rejected)
        } else {
            (
                Ledger {
                    entries: self.entries,
                    holdings: self.holdings.insert(
                        request.account,
                        Holding { entry: request.entry, owner: request.owner, balance: 0 },
                    ),
                },
                LedgerReply::Accepted,
            )
        }
    }

    /// Whether the ledger accepts `request`: entry and account exist and belong together,
    /// `authority` is the entry's mint authority, and the new supply fits in 64 bits.
    pub open spec fn admits_mint(self, request: MintRequest) -> bool {
        &&& self.entries.contains_key(request.entry)
        &&& self.holdings.contains_key(request.account)
        &&& self.holdings[request.account].entry == request.entry
        &&& self.entries[request.entry].mint_authority == request.authority
        &&& self.entries[request.entry].supply + request.amount <= u64::MAX
    }

    /// Minting: refused unless [`Ledger::admits_mint`], else balance and supply grow by the
    /// amount and nothing else changes.
    pub open spec fn mint_to(self, request: MintRequest) -> (Ledger, LedgerReply) {
        if !self.admits_mint(request) {
            (self, LedgerReply::Rejected)
        } else {
            let entry = self.entries[request.entry];
            let holding = self.holdings[request.account];
            (
                Ledger {
                    entries: self.entries.insert(
                        request.entry,
                        Entry { supply: (entry.supply + request.amount) as nat, ..entry },
                    ),
                    holdings: self.holdings.insert(
                        request.account,
                        Holding { balance: (holding.balance + request.amount) as nat, ..holding },
                    ),
                },
                LedgerReply::Accepted,
            )
        }
    }
}

} // verus!
