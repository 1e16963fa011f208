//! The mint gateway: the two operations on tokens.
//!
//! Creating a token and minting more of it both need the ledger, which lives outside this
//! library. Each operation therefore comes in two steps. The first checks the request and
//! works out what the ledger has to be asked; the caller puts that to the ledger; the
//! second step takes the ledger's answer and, for a creation, writes the metadata record.
//! The caller runs the two steps as one all-or-nothing transaction: when either step
//! fails, whatever the ledger did in between is discarded.
//!
//! All storage, the ledger's and the records', is one space of locations, and a location
//! holds one thing. A creation needs three fresh locations. Before the first step the
//! caller looks at each of them and tells the step what it found; a creation whose
//! locations are not all free and distinct is refused before anything else about it is
//! judged, its signature excepted.
//!
//! The precision that the caller asks for is the single source of truth: the ledger entry
//! is created with it, the initial supply is computed from it, and the metadata record
//! holds it.

use crate::address::Address;
use crate::error::GatewayError;
use crate::ledger::{EntryRequest, HoldingRequest, LedgerReply, MintRequest};
use crate::metadata::{fits_reserved_space, record_fits, TokenInfo, TokenInfoView};
use crate::store::{initialize_outcome, MetadataStore, RecordHandle};
use crate::supply::{initial_supply, initial_supply_units, lemma_supply_fits_iff, supply_fits, MAX_DECIMALS};
use vstd::prelude::*;

verus! {

/// An identity together with whether it signed the request at hand.
#[derive(Clone, Copy, Debug, PartialEq, Eq)]
pub struct Authorization {
    pub identity: Address,
    pub signed: bool,
}

/// Who creates a token, and where its three parts go.
#[derive(Clone, Copy, Debug, PartialEq, Eq)]
pub struct CreateToken {
    /// Becomes mint authority, freeze authority, owner of the holding account and
    /// administrator of the token.
    pub authority: Authorization,
    /// Location for the new ledger entry.
    pub mint: Address,
    /// Location for the new holding account, which receives the initial supply.
    pub token_account: Address,
    /// Location for the new metadata record.
    pub token_info: Address,
}

/// What the caller found at the three locations that a creation is to allocate: for each,
/// whether something is stored there already.
#[derive(Clone, Copy, Debug, PartialEq, Eq)]
pub struct Occupancy {
    pub mint: bool,
    pub token_account: bool,
    pub token_info: bool,
}

/// Who mints more of an existing token, and into which holding account.
#[derive(Clone, Copy, Debug, PartialEq, Eq)]
pub struct MintTokens {
    /// Must be the mint authority of the ledger entry; the ledger checks that.
    pub authority: Authorization,
    /// The existing ledger entry.
    pub mint: Address,
    /// The existing holding account.
    pub token_account: Address,
}

/// A creation that passed the gateway's checks: what to ask of the ledger, in this order,
/// and the record to write once the ledger has accepted all of it.
#[derive(Debug, PartialEq, Eq)]
pub struct CreateOrder {
    pub entry: EntryRequest,
    pub holding: HoldingRequest,
    pub mint: MintRequest,
    /// Where the metadata record goes.
    pub location: Address,
    pub record: TokenInfo,
}

/// What a [`CreateOrder`] holds, with the record's texts as sequences of characters.
pub struct CreateOrderView {
    pub entry: EntryRequest,
    pub holding: HoldingRequest,
    pub mint: MintRequest,
    pub location: Address,
    pub record: TokenInfoView,
}

impl View for CreateOrder {
    type V = CreateOrderView;

    open spec fn view(&self) -> CreateOrderView {
        CreateOrderView {
            entry: self.entry,
            holding: self.holding,
            mint: self.mint,
            location: self.location,
            record: self.record@,
        }
    }
}

/// The order that a valid creation request results in.
pub open spec fn order_for(
    ctx: CreateToken,
    decimals: u8,
    name: Seq<char>,
    symbol: Seq<char>,
) -> CreateOrderView {
    let identity = ctx.authority.identity;
    CreateOrderView {
        entry: EntryRequest {
            entry: ctx.mint,
            precision: decimals,
            mint_authority: identity,
            freeze_authority: identity,
        },
        holding: HoldingRequest { account: ctx.token_account, entry: ctx.mint, owner: identity },
        mint: MintRequest {
            entry: ctx.mint,
            account: ctx.token_account,
            authority: identity,
            amount: initial_supply_units(decimals) as u64,
        },
        location: ctx.token_info,
        record: TokenInfoView { mint: ctx.mint, decimals, name, symbol, authority: identity },
    }
}

/// Whether the three locations cannot all be allocated: one of them is in use, or two of
/// them are the same location.
pub open spec fn targets_clash(ctx: CreateToken, found: Occupancy) -> bool {
    ||| found.mint
    ||| found.token_account
    ||| found.token_info
    ||| ctx.mint == ctx.token_account
    ||| ctx.mint == ctx.token_info
    ||| ctx.token_account == ctx.token_info
}

/// What [`create_token`] answers: the first of the four checks that fails, or the order.
pub open spec fn create_order(
    ctx: CreateToken,
    found: Occupancy,
    decimals: u8,
    name: Seq<char>,
    symbol: Seq<char>,
) -> Result<CreateOrderView, GatewayError> {
    if !ctx.authority.signed {
        Err(GatewayError::Signature)
    } else if targets_clash(ctx, found) {
        Err(GatewayError::StorageCollision)
    } else if !supply_fits(decimals) {
        Err(GatewayError::ArithmeticOverflow)
    } else if !fits_reserved_space(name, symbol) {
        Err(GatewayError::LengthExceeded)
    } else {
        Ok(order_for(ctx, decimals, name, symbol))
    }
}

/// What [`mint_tokens`] answers: a request for exactly `amount`, if the authority signed.
pub open spec fn mint_order(ctx: MintTokens, amount: u64) -> Result<MintRequest, GatewayError> {
    if !ctx.authority.signed {
        Err(GatewayError::Signature)
    } else {
        Ok(
            MintRequest {
                entry: ctx.mint,
                account: ctx.token_account,
                authority: ctx.authority.identity,
                amount,
            },
        )
    }
}

/// How the ledger's answer to a creation order ends the creation, the record aside.
pub open spec fn create_settlement(reply: LedgerReply) -> Result<(), GatewayError> {
    match reply {
        LedgerReply::Accepted => Ok(()),
        LedgerReply::Occupied => Err(GatewayError::StorageCollision),
        LedgerReply::Rejected => Err(GatewayError::Delegation),
    }
}

/// How the ledger's answer to a mint request ends the minting: a mint allocates nothing,
/// so whatever the ledger did not accept is a refusal.
pub open spec fn mint_settlement(reply: LedgerReply) -> Result<(), GatewayError> {
    match reply {
        LedgerReply::Accepted => Ok(()),
        _ => Err(GatewayError::Delegation),
    }
}

/// What [`finish_create_token`] answers for a store that holds `records`.
pub open spec fn record_outcome(
    records: Map<Address, TokenInfoView>,
    order: CreateOrderView,
    reply: LedgerReply,
) -> Result<RecordHandle, GatewayError> {
    match create_settlement(reply) {
        Err(error) => Err(error),
        Ok(_) => initialize_outcome(records, order.location, order.record.name, order.record.symbol),
    }
}

/// First step of creating a token: checks the request and prepares the order. `found`
/// is what the caller saw at the three target locations.
///
/// Fails with `Signature` where the authority did not sign; otherwise with
/// `StorageCollision` where one of the three locations is in use or two of them are the
/// same, whatever precision, name and symbol are; otherwise with `ArithmeticOverflow` where
/// `1,000,000 * 10^decimals` exceeds 64 bits, which is so for every precision above 13;
/// otherwise with `LengthExceeded` where name and symbol take more than the 24 bytes a
/// record has for them. Otherwise the order asks for a ledger entry of precision
/// `decimals` under the authority, a holding account of it owned by the authority, and the
/// initial supply minted into that account; its record holds the request's values
/// unchanged.
pub fn create_token(
    ctx: CreateToken,
    found: Occupancy,
    decimals: u8,
    name: String,
    symbol: String,
) -> (outcome: Result<CreateOrder, GatewayError>)
    ensures
        match outcome {
            Ok(order) => create_order(ctx, found, decimals, name@, symbol@) == Ok::<
                CreateOrderView,
                GatewayError,
            >(order@),
            Err(error) => create_order(ctx, found, decimals, name@, symbol@) == Err::<
                CreateOrderView,
                GatewayError,
            >(error),
        },
        outcome is Ok <==> ctx.authority.signed && !targets_clash(ctx, found) && decimals
            <= MAX_DECIMALS && fits_reserved_space(name@, symbol@),
        ctx.authority.signed && targets_clash(ctx, found) ==> outcome == Err::<
            CreateOrder,
            GatewayError,
        >(GatewayError::StorageCollision),
        outcome matches Ok(order) ==> order.mint.amount == initial_supply_units(decimals),
{
    proof {
        lemma_supply_fits_iff(decimals);
    }
    if !ctx.authority.signed {
        return Err(GatewayError::Signature);
    }
    if found.mint || found.token_account || found.token_info || ctx.mint == ctx.token_account
        || ctx.mint == ctx.token_info || ctx.token_account == ctx.token_info {
        return Err(GatewayError::StorageCollision);
    }
    let amount: u64 = match initial_supply(decimals) {
        Some(units) => units,
        None => {
            return Err(GatewayError::ArithmeticOverflow);
        },
    };
    if !record_fits(&name, &symbol) {
        return Err(GatewayError::LengthExceeded);
    }
    let identity = ctx.authority.identity;
    Ok(
        CreateOrder {
            entry: EntryRequest {
                entry: ctx.mint,
                precision: decimals,
                mint_authority: identity,
                freeze_authority: identity,
            },
            holding: HoldingRequest { account: ctx.token_account, entry: ctx.mint, owner: identity },
            mint: MintRequest {
                entry: ctx.mint,
                account: ctx.token_account,
                authority: identity,
                amount,
            },
            location: ctx.token_info,
            record: TokenInfo { mint: ctx.mint, decimals, name, symbol, authority: identity },
        },
    )
}

/// Second step of creating a token: given the ledger's answer to the order, writes the
/// metadata record.
///
/// Fails with `StorageCollision` where the ledger found a location in use after all, with
/// `Delegation` where it refused, and, the ledger having accepted, as
/// [`MetadataStore::initialize`] does. On failure the store is unchanged; on success it
/// holds the order's record at the order's location, and every other record is as it was.
pub fn finish_create_token(store: &mut MetadataStore, order: CreateOrder, reply: LedgerReply) -> (outcome:
    Result<RecordHandle, GatewayError>)
    ensures
        outcome == record_outcome(old(store)@, order@, reply),
        outcome is Ok ==> final(store)@ == old(store)@.insert(order.location, order.record@),
        outcome is Err ==> final(store)@ == old(store)@,
{
    match reply {
        LedgerReply::Occupied => Err(GatewayError::StorageCollision),
        LedgerReply::Rejected => Err(GatewayError::Delegation),
        LedgerReply::Accepted => {
            let record = order.record;
            store.initialize(
                order.location,
                record.mint,
                record.decimals,
                record.name,
                record.symbol,
                record.authority,
            )
        },
    }
}

/// First step of minting more: checks the request and prepares what to ask of the ledger.
///
/// Fails with `Signature` where the authority did not sign. Otherwise the request names
/// the caller's entry, account and identity, and exactly `amount`. Whether the identity
/// is the entry's mint authority is for the ledger to judge; the metadata store is not
/// consulted.
pub fn mint_tokens(ctx: MintTokens, amount: u64) -> (outcome: Result<MintRequest, GatewayError>)
    ensures
        outcome == mint_order(ctx, amount),
        outcome is Ok <==> ctx.authority.signed,
        outcome matches Ok(request) ==> request.amount == amount,
{
    if !ctx.authority.signed {
        return Err(GatewayError::Signature);
    }
    Ok(
        MintRequest {
            entry: ctx.mint,
            account: ctx.token_account,
            authority: ctx.authority.identity,
            amount,
        },
    )
}

/// Second step of minting more: turns the ledger's answer into the operation's result.
///
/// Succeeds where the ledger accepted, and fails with `Delegation` on every other answer.
pub fn finish_mint_tokens(reply: LedgerReply) -> (outcome: Result<(), GatewayError>)
    ensures
        outcome == mint_settlement(reply),
        outcome is Ok <==> reply == LedgerReply::Accepted,
{
    match reply {
        LedgerReply::Accepted => Ok(()),
        _ => Err(GatewayError::Delegation),
    }
}

} // verus!
