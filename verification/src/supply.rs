use crate::amount::{raw_units, to_raw_units};
use crate::errors::ErrorCode;
use crate::ledger::{Burn, MintTo};
use crate::pubkey::Pubkey;
use crate::state::{MintingDelegate, TokenData};
use vstd::prelude::*;

verus! {

/// What `mint_tokens` is handed: the asset's registry record, the asset, the
/// holding account that receives, the minting delegate and the caller.
#[derive(Clone, Debug, PartialEq, Eq)]
pub struct MintTokensCTX {
    pub token_data: TokenData,
    pub mint: Pubkey,
    pub to: Pubkey,
    pub mint_authority_pda: MintingDelegate,
    pub authority: Pubkey,
}

/// What `burn_tokens` is handed: the asset's registry record, the asset, the
/// holding account that gives, and the caller.
#[derive(Clone, Debug, PartialEq, Eq)]
pub struct BurnTokensCTX {
    pub token_data: TokenData,
    pub mint: Pubkey,
    pub from: Pubkey,
    pub authority: Pubkey,
}

/// A change of an asset's supply, in human units.
pub enum SupplyChange {
    Mint(u64),
    Burn(u64),
}

/// The supply after one change, or `None` where the change is refused: a
/// zero amount, an amount whose raw units leave `u64`, a mint that takes the
/// supply over `u64`, a burn of more than there is.
pub open spec fn supply_after(supply: u64, decimals: u8, change: SupplyChange) -> Option<u64> {
    match change {
        SupplyChange::Mint(amount) => if amount > 0 && raw_units(amount, decimals) is Some && supply
            + amount <= u64::MAX {
            Some((supply + amount) as u64)
        } else {
            None
        },
        SupplyChange::Burn(amount) => if amount > 0 && raw_units(amount, decimals) is Some && amount
            <= supply {
            Some((supply - amount) as u64)
        } else {
            None
        },
    }
}

/// The supply after a run of changes that are all accepted, or `None` where
/// one of them is refused.
pub open spec fn supply_after_all(supply: u64, decimals: u8, changes: Seq<SupplyChange>) -> Option<
    u64,
>
    decreases changes.len(),
{
    if changes.len() == 0 {
        Some(supply)
    } else {
        match supply_after_all(supply, decimals, changes.drop_last()) {
            Some(before) => supply_after(before, decimals, changes.last()),
            None => None,
        }
    }
}

/// What a run of changes adds up to: the mints less the burns.
pub open spec fn net_change(changes: Seq<SupplyChange>) -> int
    decreases changes.len(),
{
    if changes.len() == 0 {
        0
    } else {
        net_change(changes.drop_last()) + match changes.last() {
            SupplyChange::Mint(amount) => amount as int,
            SupplyChange::Burn(amount) => -(amount as int),
        }
    }
}

/// After any run of accepted mints and burns the supply is the initial supply
/// plus the mints less the burns. A run that would take the supply below zero
/// or over `u64` at any point is refused.
pub proof fn lemma_supply_is_initial_plus_net(initial: u64, decimals: u8, changes: Seq<SupplyChange>)
    ensures
        supply_after_all(initial, decimals, changes) matches Some(supply) ==> supply == initial
            + net_change(changes),
        supply_after_all(initial, decimals, changes) is Some ==> forall|k: int|
            0 <= k <= changes.len() ==> 0 <= initial + #[trigger] net_change(changes.take(k))
                <= u64::MAX,
    decreases changes.len(),
{
    if changes.len() > 0 {
        let front = changes.drop_last();
        lemma_supply_is_initial_plus_net(initial, decimals, front);
        if supply_after_all(initial, decimals, changes) is Some {
            assert forall|k: int| 0 <= k <= changes.len() implies 0 <= initial
                + #[trigger] net_change(changes.take(k)) <= u64::MAX by {
                if k == changes.len() {
                    assert(changes.take(k) =~= changes);
                } else {
                    assert(changes.take(k) =~= front.take(k));
                }
            }
        }
    } else {
        assert forall|k: int| 0 <= k <= changes.len() implies 0 <= initial + #[trigger] net_change(
            changes.take(k),
        ) <= u64::MAX by {
            assert(changes.take(k) =~= changes);
        }
    }
}

/// The caller is the asset's controlling authority, and the asset handed
/// over is the one that the record is about.
pub open spec fn controls_asset(token_data: TokenData, mint: Pubkey, caller: Pubkey) -> bool {
    token_data.authority == caller && token_data.mint == mint
}

/// How a mint ends: the error it fails with, or the new supply.
pub open spec fn mint_outcome(ctx: MintTokensCTX, amount: u64) -> Result<u64, ErrorCode> {
    if !controls_asset(ctx.token_data, ctx.mint, ctx.authority) {
        Err(ErrorCode::Unauthorized)
    } else if ctx.token_data.is_minting_paused {
        Err(ErrorCode::MintingPaused)
    } else {
        match supply_after(
            ctx.token_data.total_supply,
            ctx.token_data.decimals,
            SupplyChange::Mint(amount),
        ) {
            Some(supply) => Ok(supply),
            None => Err(ErrorCode::InvalidAmount),
        }
    }
}

/// How a burn ends: the error it fails with, or the new supply.
pub open spec fn burn_outcome(ctx: BurnTokensCTX, amount: u64) -> Result<u64, ErrorCode> {
    if !controls_asset(ctx.token_data, ctx.mint, ctx.authority) {
        Err(ErrorCode::Unauthorized)
    } else {
        match supply_after(
            ctx.token_data.total_supply,
            ctx.token_data.decimals,
            SupplyChange::Burn(amount),
        ) {
            Some(supply) => Ok(supply),
            None => Err(ErrorCode::InvalidAmount),
        }
    }
}

/// Mints `amount` human units of the asset: adds them to the recorded supply
/// and hands back the request to the ledger, in raw units and signed by the
/// minting delegate. The mint stands only if the ledger accepts the request.
/// On an error nothing changes.
pub fn mint_tokens(ctx: &mut MintTokensCTX, _token_count: u64, amount: u64) -> (r: Result<
    MintTo,
    ErrorCode,
>)
    ensures
        old(ctx).token_data.wf() ==> final(ctx).token_data.wf(),
        match mint_outcome(*old(ctx), amount) {
            Err(e) => r == Err::<MintTo, ErrorCode>(e) && *final(ctx) == *old(ctx),
            Ok(supply) => {
                &&& raw_units(amount, old(ctx).token_data.decimals) matches Some(raw)
                &&& r == Ok::<MintTo, ErrorCode>(
                    (MintTo {
                        mint: old(ctx).mint,
                        to: old(ctx).to,
                        authority: old(ctx).mint_authority_pda,
                        amount: raw,
                    }),
                )
                &&& *final(ctx) == (MintTokensCTX {
                    token_data: TokenData { total_supply: supply, ..old(ctx).token_data },
                    ..*old(ctx)
                })
            },
        },
{
    if ctx.token_data.authority != ctx.authority || ctx.token_data.mint != ctx.mint {
        return Err(ErrorCode::Unauthorized);
    }
    if ctx.token_data.is_minting_paused {
        return Err(ErrorCode::MintingPaused);
    }
    if amount == 0 {
        return Err(ErrorCode::InvalidAmount);
    }
    let raw_amount = match to_raw_units(amount, ctx.token_data.decimals) {
        Some(raw) => raw,
        None => {
            return Err(ErrorCode::InvalidAmount);
        },
    };
    let supply = match ctx.token_data.total_supply.checked_add(amount) {
        Some(supply) => supply,
        None => {
            return Err(ErrorCode::InvalidAmount);
        },
    };
    ctx.token_data.total_supply = supply;
    Ok(MintTo { mint: ctx.mint, to: ctx.to, authority: ctx.mint_authority_pda, amount: raw_amount })
}

/// Burns `amount` human units of the asset: takes them off the recorded
/// supply and hands back the request to the ledger, in raw units. The burn
/// stands only if the ledger accepts the request, which it does where the
/// caller's holding account has that much to spend. On an error nothing
/// changes.
pub fn burn_tokens(ctx: &mut BurnTokensCTX, _token_count: u64, amount: u64) -> (r: Result<
    Burn,
    ErrorCode,
>)
    ensures
        old(ctx).token_data.wf() ==> final(ctx).token_data.wf(),
        match burn_outcome(*old(ctx), amount) {
            Err(e) => r == Err::<Burn, ErrorCode>(e) && *final(ctx) == *old(ctx),
            Ok(supply) => {
                &&& raw_units(amount, old(ctx).token_data.decimals) matches Some(raw)
                &&& r == Ok::<Burn, ErrorCode>(
                    (Burn {
                        mint: old(ctx).mint,
                        from: old(ctx).from,
                        authority: old(ctx).authority,
                        amount: raw,
                    }),
                )
                &&& *final(ctx) == (BurnTokensCTX {
                    token_data: TokenData { total_supply: supply, ..old(ctx).token_data },
                    ..*old(ctx)
                })
            },
        },
{
    if ctx.token_data.authority != ctx.authority || ctx.token_data.mint != ctx.mint {
        return Err(ErrorCode::Unauthorized);
    }
    if amount == 0 {
        return Err(ErrorCode::InvalidAmount);
    }
    let raw_amount = match to_raw_units(amount, ctx.token_data.decimals) {
        Some(raw) => raw,
        None => {
            return Err(ErrorCode::InvalidAmount);
        },
    };
    let supply = match ctx.token_data.total_supply.checked_sub(amount) {
        Some(supply) => supply,
        None => {
            return Err(ErrorCode::InvalidAmount);
        },
    };
    ctx.token_data.total_supply = supply;
    Ok(Burn { mint: ctx.mint, from: ctx.from, authority: ctx.authority, amount: raw_amount })
}

} // verus!
