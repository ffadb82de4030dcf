use crate::address::{
    derived_address, mint_authority_address, mint_authority_seeds, program_address,
    token_data_address, token_seeds, whitelist_address, whitelist_seeds,
};
use crate::amount::{raw_units, to_raw_units};
use crate::errors::ErrorCode;
use crate::ledger::{
    CreateHoldingAccount, MintTo, RegisterMetadata, RegisterMetadataView,
};
use crate::pubkey::{lemma_pubkey_view_injective, Pubkey};
use crate::state::{MintingDelegate, TokenData, TokenDataView, TokenFactory};
use crate::whitelist::Whitelist;
use vstd::prelude::*;
use vstd::utf8::encode_utf8;

verus! {

/// What `create_factory` is handed: the place of the authority's factory
/// index, empty until it is created, and the caller.
#[derive(Clone, Debug, PartialEq, Eq)]
pub struct CreateFactoryCTX {
    pub factory: Option<TokenFactory>,
    pub authority: Pubkey,
}

/// Creates the factory index of the calling authority, with its counter at
/// zero. A second creation is an error and changes nothing.
pub fn create_factory(ctx: &mut CreateFactoryCTX) -> (r: Result<(), ErrorCode>)
    ensures
        match old(ctx).factory {
            Some(_) => r == Err::<(), ErrorCode>(ErrorCode::AlreadyExists) && *final(ctx) == *old(ctx),
            None => {
                &&& r == Ok::<(), ErrorCode>(())
                &&& final(ctx).authority == old(ctx).authority
                &&& final(ctx).factory == Some(
                    (TokenFactory { authority: old(ctx).authority, token_count: 0 }),
                )
            },
        },
{
    if ctx.factory.is_some() {
        return Err(ErrorCode::AlreadyExists);
    }
    ctx.factory = Some(TokenFactory { authority: ctx.authority, token_count: 0 });
    Ok(())
}

/// What `create_token` is handed: the program under which addresses are
/// derived, the caller and its factory index, the addresses at which the new
/// records are to stand, the asset and the caller's holding account for it.
#[derive(Clone, Debug, PartialEq, Eq)]
pub struct CreateTokenCTX {
    pub program_id: Pubkey,
    pub factory: TokenFactory,
    /// Where the registry record of the new asset is to stand.
    pub token_data_key: Pubkey,
    /// Where the whitelist store of the new asset is to stand.
    pub whitelist_key: Pubkey,
    pub mint: Pubkey,
    pub mint_authority_pda: MintingDelegate,
    pub ata: Pubkey,
    pub authority: Pubkey,
}

/// What a successful `create_token` hands back: the two new records, and the
/// three requests that the host passes on, in this order. The creation
/// stands only if all three succeed.
#[derive(Clone, Debug, PartialEq, Eq)]
pub struct TokenCreation {
    pub token_data: TokenData,
    pub whitelist: Whitelist,
    pub holding_account: CreateHoldingAccount,
    pub metadata: RegisterMetadata,
    pub initial_mint: MintTo,
}

/// The caller owns the factory index, and the addresses handed over are the
/// ones that the caller and the index's counter derive.
pub open spec fn create_token_authorized(ctx: CreateTokenCTX) -> bool {
    &&& ctx.factory.authority == ctx.authority
    &&& derived_address(token_seeds(ctx.authority, ctx.factory.token_count), ctx.program_id)
        == Some(ctx.token_data_key@)
    &&& derived_address(whitelist_seeds(ctx.authority, ctx.factory.token_count), ctx.program_id)
        == Some(ctx.whitelist_key@)
    &&& program_address(mint_authority_seeds(ctx.authority), ctx.program_id@) == Some(
        (ctx.mint_authority_pda.address@, ctx.mint_authority_pda.bump),
    )
}

/// How a creation ends, given whether its accounts passed their check and
/// the counter of the factory index: the error it fails with, or the initial
/// supply in raw units. An asset is created with a positive supply: a supply
/// of zero is an invalid amount.
pub open spec fn create_token_outcome(
    authorized: bool,
    token_count: u64,
    total_supply: u64,
    decimals: u8,
    name: Seq<char>,
    symbol: Seq<char>,
    uri: Seq<char>,
) -> Result<u64, ErrorCode> {
    if !authorized {
        Err(ErrorCode::Unauthorized)
    } else if encode_utf8(name).len() > 32 {
        Err(ErrorCode::NameTooLong)
    } else if encode_utf8(symbol).len() > 10 {
        Err(ErrorCode::SymbolTooLong)
    } else if encode_utf8(uri).len() > 200 {
        Err(ErrorCode::UriTooLong)
    } else if total_supply == 0 || token_count == u64::MAX {
        Err(ErrorCode::InvalidAmount)
    } else {
        match raw_units(total_supply, decimals) {
            Some(raw) => Ok(raw),
            None => Err(ErrorCode::InvalidAmount),
        }
    }
}

/// The records and requests of a creation that succeeds.
pub open spec fn is_creation_of(
    created: TokenCreation,
    ctx: CreateTokenCTX,
    total_supply: u64,
    decimals: u8,
    name: Seq<char>,
    symbol: Seq<char>,
    uri: Seq<char>,
    default_address: Pubkey,
    raw_supply: u64,
) -> bool {
    &&& created.token_data@ == (TokenDataView {
        mint: ctx.mint,
        authority: ctx.authority,
        total_supply,
        decimals,
        is_paused: false,
        is_minting_paused: false,
        name,
        symbol,
        uri,
        whitelist: ctx.whitelist_key,
    })
    &&& created.whitelist@ == seq![default_address]
    &&& created.holding_account == (CreateHoldingAccount {
        payer: ctx.authority,
        associated_token: ctx.ata,
        authority: ctx.authority,
        mint: ctx.mint,
    })
    &&& created.metadata@ == (RegisterMetadataView {
        mint: ctx.mint,
        authority: ctx.mint_authority_pda,
        payer: ctx.authority,
        name,
        symbol,
        uri,
        decimals,
        is_mutable: true,
    })
    &&& created.initial_mint == (MintTo {
        mint: ctx.mint,
        to: ctx.ata,
        authority: ctx.mint_authority_pda,
        amount: raw_supply,
    })
}

/// Whether the addresses handed over are the ones that the caller and the
/// counter derive, and the caller owns the factory index.
pub fn check_create_token_accounts(ctx: &CreateTokenCTX) -> (r: bool)
    ensures
        r == create_token_authorized(*ctx),
{
    if ctx.factory.authority != ctx.authority {
        return false;
    }
    let count = ctx.factory.token_count;
    let token_ok = match token_data_address(&ctx.program_id, &ctx.authority, count) {
        Some((key, _)) => {
            proof {
                lemma_pubkey_view_injective(key, ctx.token_data_key);
            }
            key == ctx.token_data_key
        },
        None => false,
    };
    if !token_ok {
        return false;
    }
    let whitelist_ok = match whitelist_address(&ctx.program_id, &ctx.authority, count) {
        Some((key, _)) => {
            proof {
                lemma_pubkey_view_injective(key, ctx.whitelist_key);
            }
            key == ctx.whitelist_key
        },
        None => false,
    };
    if !whitelist_ok {
        return false;
    }
    match mint_authority_address(&ctx.program_id, &ctx.authority) {
        Some((key, bump)) => {
            proof {
                lemma_pubkey_view_injective(key, ctx.mint_authority_pda.address);
            }
            key == ctx.mint_authority_pda.address && bump == ctx.mint_authority_pda.bump
        },
        None => false,
    }
}

/// What a creation does to what it was handed and what it hands back, for
/// each way it can end.
pub open spec fn create_token_result(
    before: CreateTokenCTX,
    after: CreateTokenCTX,
    r: Result<TokenCreation, ErrorCode>,
    outcome: Result<u64, ErrorCode>,
    total_supply: u64,
    decimals: u8,
    name: Seq<char>,
    symbol: Seq<char>,
    uri: Seq<char>,
    default_address: Pubkey,
) -> bool {
    match outcome {
        Err(e) => r == Err::<TokenCreation, ErrorCode>(e) && after == before,
        Ok(raw_supply) => {
            &&& r is Ok
            &&& is_creation_of(
                r->Ok_0,
                before,
                total_supply,
                decimals,
                name,
                symbol,
                uri,
                default_address,
                raw_supply,
            )
            &&& after == (CreateTokenCTX {
                factory: TokenFactory {
                    authority: before.factory.authority,
                    token_count: (before.factory.token_count + 1) as u64,
                },
                ..before
            })
        },
    }
}

/// Every creation that succeeds hands back a record that names the caller as
/// the controlling authority, with texts within their limits and a whitelist
/// of one identity, and moves the counter of the caller's factory index on by
/// exactly one.
pub proof fn lemma_creation_names_the_caller(
    before: CreateTokenCTX,
    after: CreateTokenCTX,
    created: TokenCreation,
    total_supply: u64,
    decimals: u8,
    name: Seq<char>,
    symbol: Seq<char>,
    uri: Seq<char>,
    default_address: Pubkey,
)
    requires
        create_token_result(
            before,
            after,
            Ok(created),
            create_token_outcome(
                create_token_authorized(before),
                before.factory.token_count,
                total_supply,
                decimals,
                name,
                symbol,
                uri,
            ),
            total_supply,
            decimals,
            name,
            symbol,
            uri,
            default_address,
        ),
    ensures
        created.token_data.authority == before.authority,
        before.factory.authority == before.authority,
        after.factory.authority == before.authority,
        after.factory.token_count == before.factory.token_count + 1,
        created.token_data.total_supply == total_supply,
        created.token_data.wf(),
        created.whitelist.wf(),
        derived_address(whitelist_seeds(before.authority, before.factory.token_count), before.program_id)
            == Some(created.token_data.whitelist@),
{
    assert(created.whitelist@[0] == default_address);
}

/// Creates an asset once its accounts have been checked: `authorized` says
/// whether they passed. See `create_token`.
pub fn create_token_after_check(
    ctx: &mut CreateTokenCTX,
    authorized: bool,
    total_supply: u64,
    decimals: u8,
    name: String,
    symbol: String,
    uri: String,
    default_address: Pubkey,
) -> (r: Result<TokenCreation, ErrorCode>)
    ensures
        create_token_result(
            *old(ctx),
            *final(ctx),
            r,
            create_token_outcome(
                authorized,
                old(ctx).factory.token_count,
                total_supply,
                decimals,
                name@,
                symbol@,
                uri@,
            ),
            total_supply,
            decimals,
            name@,
            symbol@,
            uri@,
            default_address,
        ),
{
    if !authorized {
        return Err(ErrorCode::Unauthorized);
    }
    if name.as_str().as_bytes().len() > 32 {
        return Err(ErrorCode::NameTooLong);
    }
    if symbol.as_str().as_bytes().len() > 10 {
        return Err(ErrorCode::SymbolTooLong);
    }
    if uri.as_str().as_bytes().len() > 200 {
        return Err(ErrorCode::UriTooLong);
    }
    if total_supply == 0 {
        return Err(ErrorCode::InvalidAmount);
    }
    let next_count = match ctx.factory.token_count.checked_add(1) {
        Some(n) => n,
        None => {
            return Err(ErrorCode::InvalidAmount);
        },
    };
    let raw_supply = match to_raw_units(total_supply, decimals) {
        Some(raw) => raw,
        None => {
            return Err(ErrorCode::InvalidAmount);
        },
    };
    let token_data = TokenData {
        mint: ctx.mint,
        authority: ctx.authority,
        total_supply,
        decimals,
        is_paused: false,
        is_minting_paused: false,
        name: name.clone(),
        symbol: symbol.clone(),
        uri: uri.clone(),
        whitelist: ctx.whitelist_key,
    };
    let whitelist = Whitelist::new(default_address);
    let holding_account = CreateHoldingAccount {
        payer: ctx.authority,
        associated_token: ctx.ata,
        authority: ctx.authority,
        mint: ctx.mint,
    };
    let metadata = RegisterMetadata {
        mint: ctx.mint,
        authority: ctx.mint_authority_pda,
        payer: ctx.authority,
        name,
        symbol,
        uri,
        decimals,
        is_mutable: true,
    };
    let initial_mint = MintTo {
        mint: ctx.mint,
        to: ctx.ata,
        authority: ctx.mint_authority_pda,
        amount: raw_supply,
    };
    ctx.factory.token_count = next_count;
    Ok(TokenCreation { token_data, whitelist, holding_account, metadata, initial_mint })
}

/// Creates an asset for the calling authority under the next sequence number
/// of its factory index: the registry record with the supply in human units,
/// the whitelist store with one identity, and the requests to the ledger and
/// the registrar. The counter moves on by one. The caller must own the
/// factory index, and the records and the minting delegate must stand at the
/// addresses that the caller and the counter derive. The texts are measured
/// in bytes. On an error nothing changes.
pub fn create_token(
    ctx: &mut CreateTokenCTX,
    total_supply: u64,
    decimals: u8,
    name: String,
    symbol: String,
    uri: String,
    default_address: Pubkey,
) -> (r: Result<TokenCreation, ErrorCode>)
    ensures
        create_token_result(
            *old(ctx),
            *final(ctx),
            r,
            create_token_outcome(
                create_token_authorized(*old(ctx)),
                old(ctx).factory.token_count,
                total_supply,
                decimals,
                name@,
                symbol@,
                uri@,
            ),
            total_supply,
            decimals,
            name@,
            symbol@,
            uri@,
            default_address,
        ),
{
    let authorized = check_create_token_accounts(ctx);
    create_token_after_check(
        ctx,
        authorized,
        total_supply,
        decimals,
        name,
        symbol,
        uri,
        default_address,
    )
}

} // verus!
