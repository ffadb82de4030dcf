use crate::errors::ErrorCode;
use crate::pubkey::Pubkey;
use crate::state::TokenData;
use vstd::prelude::*;

verus! {

/// What `pause_minting` is handed: the asset's registry record and the caller.
#[derive(Clone, Debug, PartialEq, Eq)]
pub struct PauseMintingCTX {
    pub token_data: TokenData,
    pub authority: Pubkey,
}

/// What `pause_token` is handed: the asset's registry record and the caller.
#[derive(Clone, Debug, PartialEq, Eq)]
pub struct PauseTokenCTX {
    pub token_data: TokenData,
    pub authority: Pubkey,
}

/// What `transfer_authority` is handed: the asset's registry record and the
/// caller.
#[derive(Clone, Debug, PartialEq, Eq)]
pub struct TransferAuthorityCTX {
    pub token_data: TokenData,
    pub authority: Pubkey,
}

/// A record with its minting pause turned over.
pub open spec fn minting_pause_toggled(token_data: TokenData) -> TokenData {
    TokenData { is_minting_paused: !token_data.is_minting_paused, ..token_data }
}

/// A record with its transfer pause turned over.
pub open spec fn transfer_pause_toggled(token_data: TokenData) -> TokenData {
    TokenData { is_paused: !token_data.is_paused, ..token_data }
}

/// Turns the asset's minting pause over, for its controlling authority.
/// Nothing else of the record changes; for another caller nothing changes.
pub fn pause_minting(ctx: &mut PauseMintingCTX, _token_count: u64) -> (r: Result<(), ErrorCode>)
    ensures
        final(ctx).authority == old(ctx).authority,
        old(ctx).token_data.wf() ==> final(ctx).token_data.wf(),
        old(ctx).token_data.authority == old(ctx).authority ==> r == Ok::<(), ErrorCode>(())
            && final(ctx).token_data == minting_pause_toggled(old(ctx).token_data),
        old(ctx).token_data.authority != old(ctx).authority ==> r == Err::<(), ErrorCode>(
            ErrorCode::Unauthorized,
        ) && final(ctx).token_data == old(ctx).token_data,
{
    if ctx.token_data.authority != ctx.authority {
        return Err(ErrorCode::Unauthorized);
    }
    ctx.token_data.is_minting_paused = !ctx.token_data.is_minting_paused;
    Ok(())
}

/// Turns the asset's transfer pause over, for its controlling authority.
/// Nothing else of the record changes; for another caller nothing changes.
pub fn pause_token(ctx: &mut PauseTokenCTX, _token_count: u64) -> (r: Result<(), ErrorCode>)
    ensures
        final(ctx).authority == old(ctx).authority,
        old(ctx).token_data.wf() ==> final(ctx).token_data.wf(),
        old(ctx).token_data.authority == old(ctx).authority ==> r == Ok::<(), ErrorCode>(())
            && final(ctx).token_data == transfer_pause_toggled(old(ctx).token_data),
        old(ctx).token_data.authority != old(ctx).authority ==> r == Err::<(), ErrorCode>(
            ErrorCode::Unauthorized,
        ) && final(ctx).token_data == old(ctx).token_data,
{
    if ctx.token_data.authority != ctx.authority {
        return Err(ErrorCode::Unauthorized);
    }
    ctx.token_data.is_paused = !ctx.token_data.is_paused;
    Ok(())
}

/// Hands the asset over to a new controlling authority, for its present one.
/// From then on the record names the new authority, and only calls by it pass
/// the record's check. Nothing else of the record changes; for another caller
/// nothing changes.
pub fn transfer_authority(
    ctx: &mut TransferAuthorityCTX,
    _token_count: u64,
    new_authority: Pubkey,
) -> (r: Result<(), ErrorCode>)
    ensures
        final(ctx).authority == old(ctx).authority,
        old(ctx).token_data.wf() ==> final(ctx).token_data.wf(),
        old(ctx).token_data.authority == old(ctx).authority ==> r == Ok::<(), ErrorCode>(())
            && final(ctx).token_data == (TokenData {
            authority: new_authority,
            ..old(ctx).token_data
        }),
        old(ctx).token_data.authority != old(ctx).authority ==> r == Err::<(), ErrorCode>(
            ErrorCode::Unauthorized,
        ) && final(ctx).token_data == old(ctx).token_data,
{
    if ctx.token_data.authority != ctx.authority {
        return Err(ErrorCode::Unauthorized);
    }
    ctx.token_data.authority = new_authority;
    Ok(())
}

/// Turning the transfer pause over twice gives the record back as it was.
pub proof fn lemma_transfer_pause_twice(token_data: TokenData)
    ensures
        transfer_pause_toggled(transfer_pause_toggled(token_data)) == token_data,
{
}

/// Turning the minting pause over twice gives the record back as it was.
pub proof fn lemma_minting_pause_twice(token_data: TokenData)
    ensures
        minting_pause_toggled(minting_pause_toggled(token_data)) == token_data,
{
}

} // verus!
