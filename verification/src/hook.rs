use crate::errors::ErrorCode;
use crate::pubkey::Pubkey;
use crate::state::TokenData;
use crate::whitelist::Whitelist;
use anchor_lang::prelude::ProgramError;
use anchor_spl::token_2022::spl_token_2022::extension::transfer_hook::TransferHookAccount;
use anchor_spl::token_2022::spl_token_2022::extension::{
    BaseStateWithExtensionsMut, PodStateWithExtensionsMut,
};
use anchor_spl::token_2022::spl_token_2022::pod::PodAccount;
use vstd::prelude::*;

verus! {

/// A holding account as the ledger hands it over: the asset it holds, the
/// identity that owns it, and its record as the ledger keeps it, in which
/// the ledger marks a transfer in flight.
#[derive(Clone, Debug, PartialEq, Eq)]
pub struct TokenAccount {
    pub mint: Pubkey,
    pub owner: Pubkey,
    pub data: Vec<u8>,
}

/// What the ledger hands to the interceptor for one transfer: the accounts of
/// the transfer, and the whitelist store that the asset's recipe resolves to.
#[derive(Clone, Debug, PartialEq, Eq)]
pub struct TransferHook {
    pub source_token: TokenAccount,
    pub mint: Pubkey,
    pub destination_token: TokenAccount,
    /// The owner of the source account.
    pub owner: Pubkey,
    pub whitelist: Whitelist,
}

/// The in-flight marker that a holding account's record carries: `None`
/// where the bytes are no initialized holding account with that marker.
pub uninterp spec fn transferring_marker(data: Seq<u8>) -> Option<bool>;

/// Calls `PodStateWithExtensionsMut::<PodAccount>::unpack` of `spl_token_2022`
/// (through `anchor_spl`) on a copy of the bytes, and on what it gives
/// `get_extension_mut::<TransferHookAccount>`, and reads the extension's
/// flag. Whether the two succeed, and the flag, are taken to depend on the
/// bytes alone and are named `transferring_marker`; nothing else is claimed.
#[verifier::external_body]
fn unpack_transferring(data: &Vec<u8>) -> (r: Result<bool, ProgramError>)
    ensures
        match r {
            Ok(flag) => transferring_marker(data@) == Some(flag),
            Err(_) => transferring_marker(data@) is None,
        },
{
    let mut bytes = data.clone();
    let mut account = PodStateWithExtensionsMut::<PodAccount>::unpack(&mut bytes)?;
    let extension = account.get_extension_mut::<TransferHookAccount>()?;
    Ok(bool::from(extension.transferring))
}

/// How the interceptor answers a transfer, given the marker read from the
/// source account, the whitelist and the owner of the destination account:
/// without a set marker the call is no transfer; with it, the owner must be
/// on the whitelist.
pub open spec fn transfer_verdict(
    marker: Option<bool>,
    whitelist: Seq<Pubkey>,
    destination_owner: Pubkey,
) -> Result<(), ErrorCode> {
    if marker != Some(true) {
        Err(ErrorCode::IsNotCurrentlyTransferring)
    } else if !whitelist.contains(destination_owner) {
        Err(ErrorCode::AddressNotWhitelisted)
    } else {
        Ok(())
    }
}

/// Whether a marker, as read from a source account, shows a transfer in
/// flight.
pub fn require_transferring(marker: Option<bool>) -> (r: Result<(), ErrorCode>)
    ensures
        r == if marker == Some(true) {
            Ok::<(), ErrorCode>(())
        } else {
            Err::<(), ErrorCode>(ErrorCode::IsNotCurrentlyTransferring)
        },
{
    match marker {
        Some(true) => Ok(()),
        _ => Err(ErrorCode::IsNotCurrentlyTransferring),
    }
}

/// Answers a transfer from the marker of its source account, the whitelist
/// and the owner of its destination account.
pub fn judge_transfer(marker: Option<bool>, whitelist: &Whitelist, destination_owner: &Pubkey) -> (r:
    Result<(), ErrorCode>)
    ensures
        r == transfer_verdict(marker, whitelist@, *destination_owner),
{
    match require_transferring(marker) {
        Ok(()) => {},
        Err(e) => {
            return Err(e);
        },
    }
    if !whitelist.contains(destination_owner) {
        return Err(ErrorCode::AddressNotWhitelisted);
    }
    Ok(())
}

/// Reads the in-flight marker of a holding account's record.
pub fn read_transferring(account: &TokenAccount) -> (r: Option<bool>)
    ensures
        r == transferring_marker(account.data@),
{
    match unpack_transferring(&account.data) {
        Ok(flag) => Some(flag),
        Err(_) => None,
    }
}

/// Whether the source account of the transfer is marked as in flight: the
/// interceptor answers only inside a transfer.
pub fn check_is_transferring(ctx: &TransferHook) -> (r: Result<(), ErrorCode>)
    ensures
        r == if transferring_marker(ctx.source_token.data@) == Some(true) {
            Ok::<(), ErrorCode>(())
        } else {
            Err::<(), ErrorCode>(ErrorCode::IsNotCurrentlyTransferring)
        },
{
    require_transferring(read_transferring(&ctx.source_token))
}

/// The interceptor: approves a transfer in flight whose destination is owned
/// by an identity on the asset's whitelist, and rejects every other call. It
/// reads and changes nothing else: neither the amount nor a pause flag of the
/// asset bears on the answer. The whitelist is the store that the ledger
/// found by the asset's recipe; the interceptor takes it as handed over and
/// does not look for it again.
pub fn transfer_hook(ctx: &TransferHook, _amount: u64) -> (r: Result<(), ErrorCode>)
    ensures
        r == transfer_verdict(
            transferring_marker(ctx.source_token.data@),
            ctx.whitelist@,
            ctx.destination_token.owner,
        ),
{
    judge_transfer(
        read_transferring(&ctx.source_token),
        &ctx.whitelist,
        &ctx.destination_token.owner,
    )
}

/// A transfer in flight to a destination whose owner is not on the whitelist
/// is rejected as not whitelisted.
pub proof fn lemma_unlisted_destination_is_rejected(
    whitelist: Seq<Pubkey>,
    destination_owner: Pubkey,
)
    requires
        !whitelist.contains(destination_owner),
    ensures
        transfer_verdict(Some(true), whitelist, destination_owner) == Err::<(), ErrorCode>(
            ErrorCode::AddressNotWhitelisted,
        ),
{
}

/// The pause flags of an asset do not bear on a transfer: in flight and to a
/// whitelisted owner it is approved, whatever the asset's record holds, so
/// also while minting is paused.
pub proof fn lemma_transfer_ignores_pause_flags(
    token_data: TokenData,
    whitelist: Seq<Pubkey>,
    destination_owner: Pubkey,
)
    requires
        whitelist.contains(destination_owner),
    ensures
        transfer_verdict(Some(true), whitelist, destination_owner) == Ok::<(), ErrorCode>(()),
{
}

} // verus!
