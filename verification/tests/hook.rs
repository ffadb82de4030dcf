use anchor_lang::prelude::Pubkey as LedgerKey;
use anchor_spl::token_2022::spl_token_2022::extension::transfer_hook::TransferHookAccount;
use anchor_spl::token_2022::spl_token_2022::extension::{
    BaseStateWithExtensionsMut, ExtensionType, StateWithExtensionsMut,
};
use anchor_spl::token_2022::spl_token_2022::state::{Account, AccountState};
use potter_potter::{
    check_is_transferring, judge_transfer, transfer_hook, ErrorCode, Pubkey, TokenAccount,
    TransferHook, Whitelist,
};

fn key(n: u8) -> Pubkey {
    Pubkey::new_from_array([n; 32])
}

fn ledger_key(n: u8) -> LedgerKey {
    LedgerKey::new_from_array([n; 32])
}

/// The record of a holding account with the transfer-hook extension, as the
/// ledger lays it out.
fn record(mint: u8, owner: u8, transferring: bool) -> Vec<u8> {
    let len =
        ExtensionType::try_calculate_account_len::<Account>(&[ExtensionType::TransferHookAccount])
            .unwrap();
    let mut data = vec![0u8; len];
    let mut state = StateWithExtensionsMut::<Account>::unpack_uninitialized(&mut data).unwrap();
    let extension = state.init_extension::<TransferHookAccount>(true).unwrap();
    extension.transferring = transferring.into();
    state.base = Account {
        mint: ledger_key(mint),
        owner: ledger_key(owner),
        amount: 100,
        state: AccountState::Initialized,
        ..Account::default()
    };
    state.pack_base();
    state.init_account_type().unwrap();
    data
}

fn holding(mint: u8, owner: u8, data: Vec<u8>) -> TokenAccount {
    TokenAccount { mint: key(mint), owner: key(owner), data }
}

fn transfer(source: Vec<u8>, destination_owner: u8, listed: &[u8]) -> TransferHook {
    TransferHook {
        source_token: holding(50, 1, source),
        mint: key(50),
        destination_token: holding(50, destination_owner, record(50, destination_owner, false)),
        owner: key(1),
        whitelist: Whitelist { addresses: listed.iter().map(|n| key(*n)).collect() },
    }
}

#[test]
fn transfer_to_a_listed_owner_is_approved() {
    let ctx = transfer(record(50, 1, true), 2, &[2]);
    let before = ctx.clone();
    assert_eq!(transfer_hook(&ctx, 100), Ok(()));
    assert_eq!(ctx, before);
}

#[test]
fn transfer_to_an_unlisted_owner_is_rejected() {
    let ctx = transfer(record(50, 1, true), 3, &[2]);
    let before = ctx.clone();
    assert_eq!(transfer_hook(&ctx, 100), Err(ErrorCode::AddressNotWhitelisted));
    assert_eq!(ctx, before);
}

#[test]
fn transfer_goes_by_the_owner_of_the_destination_not_of_the_source() {
    // the source's owner is listed, the destination's is not
    let ctx = transfer(record(50, 1, true), 3, &[1]);
    assert_eq!(transfer_hook(&ctx, 100), Err(ErrorCode::AddressNotWhitelisted));
    // the destination's owner is listed, the source's is not
    let ctx = transfer(record(50, 1, true), 3, &[3]);
    assert_eq!(transfer_hook(&ctx, 100), Ok(()));
}

#[test]
fn transfer_to_an_empty_whitelist_is_rejected() {
    let ctx = transfer(record(50, 1, true), 2, &[]);
    assert_eq!(transfer_hook(&ctx, 1), Err(ErrorCode::AddressNotWhitelisted));
}

#[test]
fn call_outside_a_transfer_is_rejected() {
    let ctx = transfer(record(50, 1, false), 2, &[2]);
    assert_eq!(check_is_transferring(&ctx), Err(ErrorCode::IsNotCurrentlyTransferring));
    assert_eq!(transfer_hook(&ctx, 100), Err(ErrorCode::IsNotCurrentlyTransferring));
}

#[test]
fn call_outside_a_transfer_is_rejected_before_the_whitelist_is_read() {
    let ctx = transfer(record(50, 1, false), 3, &[2]);
    assert_eq!(transfer_hook(&ctx, 100), Err(ErrorCode::IsNotCurrentlyTransferring));
}

#[test]
fn source_marked_as_in_flight_passes_the_first_check() {
    let ctx = transfer(record(50, 1, true), 3, &[]);
    assert_eq!(check_is_transferring(&ctx), Ok(()));
}

#[test]
fn marker_is_read_from_the_source_account() {
    let mut ctx = transfer(record(50, 1, false), 2, &[2]);
    ctx.destination_token.data = record(50, 2, true);
    assert_eq!(transfer_hook(&ctx, 100), Err(ErrorCode::IsNotCurrentlyTransferring));
}

#[test]
fn source_without_the_marker_is_no_transfer() {
    // a holding account of the plain layout, which has no room for the marker
    let mut plain = record(50, 1, true);
    plain.truncate(165);
    let ctx = transfer(plain, 2, &[2]);
    assert_eq!(transfer_hook(&ctx, 100), Err(ErrorCode::IsNotCurrentlyTransferring));
}

#[test]
fn source_that_is_no_holding_account_is_no_transfer() {
    for bytes in [Vec::new(), vec![0u8; 10], vec![0u8; 171], vec![255u8; 171], vec![1u8; 355]] {
        let ctx = transfer(bytes, 2, &[2]);
        assert_eq!(check_is_transferring(&ctx), Err(ErrorCode::IsNotCurrentlyTransferring));
        assert_eq!(transfer_hook(&ctx, 100), Err(ErrorCode::IsNotCurrentlyTransferring));
    }
}

#[test]
fn uninitialized_source_is_no_transfer() {
    let mut data = record(50, 1, true);
    data[108] = 0;
    let ctx = transfer(data, 2, &[2]);
    assert_eq!(transfer_hook(&ctx, 100), Err(ErrorCode::IsNotCurrentlyTransferring));
}

#[test]
fn amount_does_not_bear_on_the_answer() {
    let ctx = transfer(record(50, 1, true), 2, &[2]);
    assert_eq!(transfer_hook(&ctx, 0), Ok(()));
    assert_eq!(transfer_hook(&ctx, u64::MAX), Ok(()));
}

#[test]
fn verdict_for_each_marker() {
    let listed = Whitelist { addresses: vec![key(2)] };
    assert_eq!(judge_transfer(Some(true), &listed, &key(2)), Ok(()));
    assert_eq!(judge_transfer(Some(true), &listed, &key(3)), Err(ErrorCode::AddressNotWhitelisted));
    assert_eq!(
        judge_transfer(Some(false), &listed, &key(2)),
        Err(ErrorCode::IsNotCurrentlyTransferring)
    );
    assert_eq!(judge_transfer(None, &listed, &key(2)), Err(ErrorCode::IsNotCurrentlyTransferring));
    assert_eq!(judge_transfer(None, &listed, &key(3)), Err(ErrorCode::IsNotCurrentlyTransferring));
}

#[test]
fn marker_is_read_as_the_ledger_wrote_it() {
    assert_eq!(potter_potter::read_transferring(&holding(50, 1, record(50, 1, true))), Some(true));
    assert_eq!(potter_potter::read_transferring(&holding(50, 1, record(50, 1, false))), Some(false));
    assert_eq!(potter_potter::read_transferring(&holding(50, 1, vec![0u8; 171])), None);
    assert_eq!(potter_potter::read_transferring(&holding(50, 1, Vec::new())), None);
}

#[test]
fn only_a_set_marker_is_a_transfer() {
    assert_eq!(potter_potter::require_transferring(Some(true)), Ok(()));
    assert_eq!(
        potter_potter::require_transferring(Some(false)),
        Err(ErrorCode::IsNotCurrentlyTransferring)
    );
    assert_eq!(potter_potter::require_transferring(None), Err(ErrorCode::IsNotCurrentlyTransferring));
}
