//! What the gateway's operations achieve, end to end.
//!
//! A world is the ledger together with the metadata records, in one space of storage
//! locations. Running an operation means: the caller's look at the target locations, the
//! gateway's first step, the ledger's work on what that step asks for, the gateway's
//! second step, all or nothing. The runs are defined here from the very functions that
//! specify the two steps, and the laws below are proved about them.

use crate::address::Address;
use crate::error::GatewayError;
use crate::gateway::{
    create_order, mint_order, mint_settlement, record_outcome, targets_clash, CreateOrderView,
    CreateToken, MintTokens, Occupancy,
};
use crate::ledger::{Ledger, LedgerReply, MintRequest};
use crate::metadata::{fits_reserved_space, TokenInfoView};
use crate::store::RecordHandle;
use crate::supply::{
    initial_supply_units, lemma_supply_fits_iff, lemma_supply_positive, MAX_DECIMALS,
};
use vstd::prelude::*;

verus! {

/// The ledger and the metadata records side by side.
#[verifier::ext_equal]
pub struct World {
    pub ledger: Ledger,
    pub records: Map<Address, TokenInfoView>,
}

impl World {
    /// The world before any token was created.
    pub open spec fn empty() -> World {
        World { ledger: Ledger::empty(), records: Map::empty() }
    }

    /// Whether anything, of the ledger's or a record, is stored at `location`.
    pub open spec fn occupied(self, location: Address) -> bool {
        self.ledger.occupied(location) || self.records.contains_key(location)
    }

    /// What a caller who looks at the three target locations of `ctx` finds.
    pub open spec fn occupancy(self, ctx: CreateToken) -> Occupancy {
        Occupancy {
            mint: self.occupied(ctx.mint),
            token_account: self.occupied(ctx.token_account),
            token_info: self.occupied(ctx.token_info),
        }
    }

    /// Every record describes an entry that the ledger has, with the entry's precision and
    /// mint authority, fits in its reserved space, and is the only record of that entry;
    /// and no location holds two things.
    pub open spec fn consistent(self) -> bool {
        &&& forall|location: Address| #[trigger]
            self.records.contains_key(location) ==> {
                let record = self.records[location];
                &&& self.ledger.entries.contains_key(record.mint)
                &&& self.ledger.entries[record.mint].precision == record.decimals
                &&& self.ledger.entries[record.mint].mint_authority == record.authority
                &&& fits_reserved_space(record.name, record.symbol)
                &&& !self.ledger.occupied(location)
            }
        &&& forall|location: Address| #[trigger]
            self.ledger.entries.contains_key(location) ==> !self.ledger.holdings.contains_key(
                location,
            )
        &&& forall|one: Address, other: Address|
            #![trigger self.records[one], self.records[other]]
            self.records.contains_key(one) && self.records.contains_key(other)
                && self.records[one].mint == self.records[other].mint ==> one == other
    }
}

/// The ledger's work on a creation order: the entry, then the holding account, then the
/// initial supply. It stops at the first step that is not accepted and then keeps nothing.
pub open spec fn fill_order(ledger: Ledger, order: CreateOrderView) -> (Ledger, LedgerReply) {
    let (with_entry, entry_reply) = ledger.create_entry(order.entry);
    if entry_reply != LedgerReply::Accepted {
        (ledger, entry_reply)
    } else {
        let (with_holding, holding_reply) = with_entry.open_holding(order.holding);
        if holding_reply != LedgerReply::Accepted {
            (ledger, holding_reply)
        } else {
            let (funded, mint_reply) = with_holding.mint_to(order.mint);
            if mint_reply != LedgerReply::Accepted {
                (ledger, mint_reply)
            } else {
                (funded, LedgerReply::Accepted)
            }
        }
    }
}

/// Creating a token, from request to result.
pub open spec fn create_token_run(
    world: World,
    ctx: CreateToken,
    decimals: u8,
    name: Seq<char>,
    symbol: Seq<char>,
) -> (World, Result<RecordHandle, GatewayError>) {
    match create_order(ctx, world.occupancy(ctx), decimals, name, symbol) {
        Err(error) => (world, Err(error)),
        Ok(order) => {
            let (ledger, reply) = fill_order(world.ledger, order);
            match record_outcome(world.records, order, reply) {
                Err(error) => (world, Err(error)),
                Ok(handle) => (
                    World { ledger, records: world.records.insert(order.location, order.record) },
                    Ok(handle),
                ),
            }
        },
    }
}

/// Minting more, from request to result.
pub open spec fn mint_tokens_run(world: World, ctx: MintTokens, amount: u64) -> (
    World,
    Result<(), GatewayError>,
) {
    match mint_order(ctx, amount) {
        Err(error) => (world, Err(error)),
        Ok(request) => {
            let (ledger, reply) = world.ledger.mint_to(request);
            match mint_settlement(reply) {
                Err(error) => (world, Err(error)),
                Ok(_) => (World { ledger, records: world.records }, Ok(())),
            }
        },
    }
}

/// Whether the three locations that a creation allocates are free and distinct.
pub open spec fn targets_free(world: World, ctx: CreateToken) -> bool {
    !targets_clash(ctx, world.occupancy(ctx))
}

/// What a creation answers, for every request and every world: `Signature` where the
/// authority did not sign; else `StorageCollision` where the target locations are not free
/// and distinct, whatever precision, name and symbol are; else `ArithmeticOverflow` where
/// the precision is above 13; else `LengthExceeded` where the texts do not fit; else
/// success.
pub proof fn law_creation_succeeds_iff(
    world: World,
    ctx: CreateToken,
    decimals: u8,
    name: Seq<char>,
    symbol: Seq<char>,
)
    ensures
        ({
            let outcome = create_token_run(world, ctx, decimals, name, symbol).1;
            let free = targets_free(world, ctx);
            let fits = fits_reserved_space(name, symbol);
            &&& outcome is Ok <==> ctx.authority.signed && free && decimals <= MAX_DECIMALS && fits
            &&& !ctx.authority.signed ==> outcome == Err::<RecordHandle, GatewayError>(
                GatewayError::Signature,
            )
            &&& ctx.authority.signed && !free ==> outcome == Err::<RecordHandle, GatewayError>(
                GatewayError::StorageCollision,
            )
            &&& ctx.authority.signed && free && decimals > MAX_DECIMALS ==> outcome == Err::<
                RecordHandle,
                GatewayError,
            >(GatewayError::ArithmeticOverflow)
            &&& ctx.authority.signed && free && decimals <= MAX_DECIMALS && !fits ==> outcome
                == Err::<RecordHandle, GatewayError>(GatewayError::LengthExceeded)
        }),
{
    lemma_supply_fits_iff(decimals);
    lemma_supply_positive(decimals);
}

/// After a successful creation, reading the record at the returned handle gives the
/// request's precision, name and symbol, the identity of the authority as administrator,
/// and the id of the ledger entry that the creation has just made.
pub proof fn law_created_record_matches_request(
    world: World,
    ctx: CreateToken,
    decimals: u8,
    name: Seq<char>,
    symbol: Seq<char>,
)
    requires
        create_token_run(world, ctx, decimals, name, symbol).1 is Ok,
    ensures
        ({
            let (after, outcome) = create_token_run(world, ctx, decimals, name, symbol);
            let handle = outcome->Ok_0;
            &&& handle.location == ctx.token_info
            &&& after.records.contains_key(handle.location)
            &&& after.records[handle.location] == TokenInfoView {
                mint: ctx.mint,
                decimals,
                name,
                symbol,
                authority: ctx.authority.identity,
            }
            &&& !world.ledger.entries.contains_key(ctx.mint)
            &&& after.ledger.entries.contains_key(ctx.mint)
            &&& after.ledger.entries[ctx.mint].precision == decimals
            &&& after.ledger.entries[ctx.mint].mint_authority == ctx.authority.identity
            &&& after.ledger.entries[ctx.mint].freeze_authority == ctx.authority.identity
        }),
{
}

/// After a successful creation the holding account exists, belongs to the new entry and to
/// the authority, and its balance is `1,000,000 * 10^decimals` base units, which is also
/// the entry's whole supply.
pub proof fn law_created_balance_is_initial_supply(
    world: World,
    ctx: CreateToken,
    decimals: u8,
    name: Seq<char>,
    symbol: Seq<char>,
)
    requires
        create_token_run(world, ctx, decimals, name, symbol).1 is Ok,
    ensures
        ({
            let after = create_token_run(world, ctx, decimals, name, symbol).0;
            &&& after.ledger.holdings.contains_key(ctx.token_account)
            &&& after.ledger.holdings[ctx.token_account].entry == ctx.mint
            &&& after.ledger.holdings[ctx.token_account].owner == ctx.authority.identity
            &&& after.ledger.balance(ctx.token_account) == initial_supply_units(decimals)
            &&& after.ledger.entries[ctx.mint].supply == initial_supply_units(decimals)
        }),
{
    lemma_supply_fits_iff(decimals);
    lemma_supply_positive(decimals);
}

/// A signed creation that targets the locations of an earlier, successful one fails with
/// `StorageCollision`, whatever its precision, name and symbol are, and changes nothing:
/// the earlier record is still there as it was, nothing more is minted, and the supply is
/// what it was.
pub proof fn law_second_creation_collides(
    world: World,
    first: CreateToken,
    decimals: u8,
    name: Seq<char>,
    symbol: Seq<char>,
    second: CreateToken,
    other_decimals: u8,
    other_name: Seq<char>,
    other_symbol: Seq<char>,
)
    requires
        create_token_run(world, first, decimals, name, symbol).1 is Ok,
        second.mint == first.mint,
        second.token_account == first.token_account,
        second.token_info == first.token_info,
        second.authority.signed,
    ensures
        ({
            let after = create_token_run(world, first, decimals, name, symbol).0;
            let (last, outcome) = create_token_run(
                after,
                second,
                other_decimals,
                other_name,
                other_symbol,
            );
            &&& outcome == Err::<RecordHandle, GatewayError>(GatewayError::StorageCollision)
            &&& last == after
            &&& last.records[first.token_info] == TokenInfoView {
                mint: first.mint,
                decimals,
                name,
                symbol,
                authority: first.authority.identity,
            }
            &&& last.ledger.balance(first.token_account) == initial_supply_units(decimals)
            &&& last.ledger.entries[first.mint].supply == initial_supply_units(decimals)
        }),
{
    law_created_record_matches_request(world, first, decimals, name, symbol);
    law_created_balance_is_initial_supply(world, first, decimals, name, symbol);
    let after = create_token_run(world, first, decimals, name, symbol).0;
    assert(after.occupied(second.mint));
    law_creation_succeeds_iff(after, second, other_decimals, other_name, other_symbol);
    law_failed_creation_changes_nothing(after, second, other_decimals, other_name, other_symbol);
}

/// A signed creation of which any target location is in use, or of which two target
/// locations are the same, fails with `StorageCollision` and changes nothing.
pub proof fn law_creation_needs_fresh_locations(
    world: World,
    ctx: CreateToken,
    decimals: u8,
    name: Seq<char>,
    symbol: Seq<char>,
)
    requires
        ctx.authority.signed,
        world.occupied(ctx.mint) || world.occupied(ctx.token_account) || world.occupied(
            ctx.token_info,
        ) || ctx.mint == ctx.token_account || ctx.mint == ctx.token_info || ctx.token_account
            == ctx.token_info,
    ensures
        create_token_run(world, ctx, decimals, name, symbol) == (
            world,
            Err::<RecordHandle, GatewayError>(GatewayError::StorageCollision),
        ),
{
}

/// A creation that fails leaves the world exactly as it was.
pub proof fn law_failed_creation_changes_nothing(
    world: World,
    ctx: CreateToken,
    decimals: u8,
    name: Seq<char>,
    symbol: Seq<char>,
)
    requires
        create_token_run(world, ctx, decimals, name, symbol).1 is Err,
    ensures
        create_token_run(world, ctx, decimals, name, symbol).0 == world,
{
}

/// Minting that fails leaves the world exactly as it was.
pub proof fn law_failed_mint_changes_nothing(world: World, ctx: MintTokens, amount: u64)
    requires
        mint_tokens_run(world, ctx, amount).1 is Err,
    ensures
        mint_tokens_run(world, ctx, amount).0 == world,
{
}

/// A creation neither overwrites nor removes a record that was there before.
pub proof fn law_creation_keeps_records(
    world: World,
    ctx: CreateToken,
    decimals: u8,
    name: Seq<char>,
    symbol: Seq<char>,
    location: Address,
)
    requires
        world.records.contains_key(location),
    ensures
        ({
            let after = create_token_run(world, ctx, decimals, name, symbol).0;
            after.records.contains_key(location) && after.records[location]
                == world.records[location]
        }),
{
}

/// Minting more leaves every metadata record as it was, whether it succeeds or not.
pub proof fn law_mint_keeps_records(world: World, ctx: MintTokens, amount: u64)
    ensures
        mint_tokens_run(world, ctx, amount).0.records == world.records,
{
}

/// Minting more succeeds exactly when the authority signed and the ledger admits the
/// request; it then adds exactly `amount` to the balance of the holding account and to
/// the entry's supply, and leaves every metadata record and every other account as it was.
pub proof fn law_mint_adds_amount(world: World, ctx: MintTokens, amount: u64)
    ensures
        ({
            let (after, outcome) = mint_tokens_run(world, ctx, amount);
            let request = MintRequest {
                entry: ctx.mint,
                account: ctx.token_account,
                authority: ctx.authority.identity,
                amount,
            };
            &&& outcome is Ok <==> ctx.authority.signed && world.ledger.admits_mint(request)
            &&& outcome is Ok ==> {
                &&& after.ledger.balance(ctx.token_account) == world.ledger.balance(
                    ctx.token_account,
                ) + amount
                &&& after.ledger.entries[ctx.mint].supply == world.ledger.entries[ctx.mint].supply
                    + amount
                &&& after.records == world.records
                &&& forall|account: Address|
                    account != ctx.token_account ==> #[trigger] after.ledger.balance(account)
                        == world.ledger.balance(account)
            }
        }),
{
}

/// Minting more with a signed request whose identity is not the mint authority of the
/// ledger entry fails with `Delegation` and changes nothing, whatever the metadata
/// records hold.
pub proof fn law_mint_by_stranger_is_refused(world: World, ctx: MintTokens, amount: u64)
    requires
        ctx.authority.signed,
        world.ledger.entries.contains_key(ctx.mint),
        world.ledger.entries[ctx.mint].mint_authority != ctx.authority.identity,
    ensures
        mint_tokens_run(world, ctx, amount) == (
            world,
            Err::<(), GatewayError>(GatewayError::Delegation),
        ),
{
}

/// The empty world is consistent.
pub proof fn law_empty_world_is_consistent()
    ensures
        World::empty().consistent(),
{
}

/// A creation keeps a consistent world consistent: the new token has exactly one record,
/// made together with its ledger entry, and the record's precision and administrator are
/// those of the entry.
pub proof fn law_creation_keeps_consistency(
    world: World,
    ctx: CreateToken,
    decimals: u8,
    name: Seq<char>,
    symbol: Seq<char>,
)
    requires
        world.consistent(),
    ensures
        create_token_run(world, ctx, decimals, name, symbol).0.consistent(),
{
    let created = create_token_run(world, ctx, decimals, name, symbol).0;
    if create_token_run(world, ctx, decimals, name, symbol).1 is Ok {
        law_creation_succeeds_iff(world, ctx, decimals, name, symbol);
        law_created_record_matches_request(world, ctx, decimals, name, symbol);
        assert forall|location: Address| #[trigger]
            created.records.contains_key(location) implies {
            let record = created.records[location];
            &&& created.ledger.entries.contains_key(record.mint)
            &&& created.ledger.entries[record.mint].precision == record.decimals
            &&& created.ledger.entries[record.mint].mint_authority == record.authority
            &&& fits_reserved_space(record.name, record.symbol)
            &&& !created.ledger.occupied(location)
        } by {
            if location != ctx.token_info {
                assert(world.records.contains_key(location));
            }
        }
        assert forall|location: Address| #[trigger]
            created.ledger.entries.contains_key(location) implies !created.ledger.holdings.contains_key(
            location,
        ) by {
            if location != ctx.mint {
                assert(world.ledger.entries.contains_key(location));
            }
        }
        assert forall|one: Address, other: Address|
            #![trigger created.records[one], created.records[other]]
            created.records.contains_key(one) && created.records.contains_key(other)
                && created.records[one].mint == created.records[other].mint implies one
            == other by {
            if one != ctx.token_info {
                assert(world.records.contains_key(one));
            }
            if other != ctx.token_info {
                assert(world.records.contains_key(other));
            }
        }
    }
}

/// Minting more keeps a consistent world consistent.
pub proof fn law_mint_keeps_consistency(world: World, ctx: MintTokens, amount: u64)
    requires
        world.consistent(),
    ensures
        mint_tokens_run(world, ctx, amount).0.consistent(),
{
    let minted = mint_tokens_run(world, ctx, amount).0;
    assert forall|location: Address| #[trigger] minted.records.contains_key(location) implies {
        let record = minted.records[location];
        &&& minted.ledger.entries.contains_key(record.mint)
        &&& minted.ledger.entries[record.mint].precision == record.decimals
        &&& minted.ledger.entries[record.mint].mint_authority == record.authority
        &&& fits_reserved_space(record.name, record.symbol)
        &&& !minted.ledger.occupied(location)
    } by {
        assert(world.records.contains_key(location));
    }
    assert forall|location: Address| #[trigger]
        minted.ledger.entries.contains_key(location) implies !minted.ledger.holdings.contains_key(
        location,
    ) by {
        assert(world.ledger.entries.contains_key(location));
    }
}

/// In a consistent world, whoever mints more of a token that has a record is that record's
/// administrator.
pub proof fn law_minter_is_administrator(
    world: World,
    ctx: MintTokens,
    amount: u64,
    location: Address,
)
    requires
        world.consistent(),
        world.records.contains_key(location),
        world.records[location].mint == ctx.mint,
        mint_tokens_run(world, ctx, amount).1 is Ok,
    ensures
        ctx.authority.identity == world.records[location].authority,
{
}

} // verus!
