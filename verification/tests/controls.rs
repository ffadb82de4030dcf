use potter_potter::{
    mint_tokens, pause_minting, pause_token, transfer_authority, ErrorCode, MintTokensCTX,
    MintingDelegate, PauseMintingCTX, PauseTokenCTX, Pubkey, TokenData, TransferAuthorityCTX,
};

fn key(n: u8) -> Pubkey {
    Pubkey::new_from_array([n; 32])
}

fn asset() -> TokenData {
    TokenData {
        mint: key(50),
        authority: key(1),
        total_supply: 1000,
        decimals: 6,
        is_paused: false,
        is_minting_paused: false,
        name: "Gold".to_string(),
        symbol: "GLD".to_string(),
        uri: "https://x".to_string(),
        whitelist: key(60),
    }
}

#[test]
fn pause_token_turns_the_transfer_pause_over() {
    let mut ctx = PauseTokenCTX { token_data: asset(), authority: key(1) };
    assert_eq!(pause_token(&mut ctx, 0), Ok(()));
    assert_eq!(ctx.token_data, TokenData { is_paused: true, ..asset() });
    assert_eq!(ctx.authority, key(1));
}

#[test]
fn pause_token_twice_gives_the_flag_back() {
    let mut ctx = PauseTokenCTX { token_data: asset(), authority: key(1) };
    assert_eq!(pause_token(&mut ctx, 0), Ok(()));
    assert_eq!(pause_token(&mut ctx, 0), Ok(()));
    assert_eq!(ctx.token_data, asset());

    let paused = TokenData { is_paused: true, ..asset() };
    let mut ctx = PauseTokenCTX { token_data: paused.clone(), authority: key(1) };
    assert_eq!(pause_token(&mut ctx, 0), Ok(()));
    assert!(!ctx.token_data.is_paused);
    assert_eq!(pause_token(&mut ctx, 0), Ok(()));
    assert_eq!(ctx.token_data, paused);
}

#[test]
fn pause_token_is_for_the_controlling_authority() {
    let mut ctx = PauseTokenCTX { token_data: asset(), authority: key(9) };
    assert_eq!(pause_token(&mut ctx, 0), Err(ErrorCode::Unauthorized));
    assert_eq!(ctx.token_data, asset());
    assert_eq!(ctx.authority, key(9));
}

#[test]
fn pause_minting_turns_the_minting_pause_over() {
    let mut ctx = PauseMintingCTX { token_data: asset(), authority: key(1) };
    assert_eq!(pause_minting(&mut ctx, 0), Ok(()));
    assert_eq!(ctx.token_data, TokenData { is_minting_paused: true, ..asset() });
    assert_eq!(pause_minting(&mut ctx, 0), Ok(()));
    assert_eq!(ctx.token_data, asset());
}

#[test]
fn pause_minting_is_for_the_controlling_authority() {
    let mut ctx = PauseMintingCTX { token_data: asset(), authority: key(9) };
    assert_eq!(pause_minting(&mut ctx, 0), Err(ErrorCode::Unauthorized));
    assert_eq!(ctx.token_data, asset());
}

#[test]
fn the_two_pauses_are_independent() {
    let mut ctx = PauseMintingCTX { token_data: asset(), authority: key(1) };
    assert_eq!(pause_minting(&mut ctx, 0), Ok(()));
    assert!(!ctx.token_data.is_paused);
    let mut ctx = PauseTokenCTX { token_data: ctx.token_data, authority: key(1) };
    assert_eq!(pause_token(&mut ctx, 0), Ok(()));
    assert!(ctx.token_data.is_minting_paused);
    assert!(ctx.token_data.is_paused);
}

#[test]
fn pause_minting_stops_the_next_mint() {
    let mut ctx = PauseMintingCTX { token_data: asset(), authority: key(1) };
    assert_eq!(pause_minting(&mut ctx, 0), Ok(()));
    let mut mint = MintTokensCTX {
        token_data: ctx.token_data,
        mint: key(50),
        to: key(51),
        mint_authority_pda: MintingDelegate { address: key(70), bump: 255 },
        authority: key(1),
    };
    assert_eq!(mint_tokens(&mut mint, 0, 5), Err(ErrorCode::MintingPaused));
}

#[test]
fn transfer_authority_names_the_new_authority() {
    let mut ctx = TransferAuthorityCTX { token_data: asset(), authority: key(1) };
    assert_eq!(transfer_authority(&mut ctx, 0, key(2)), Ok(()));
    assert_eq!(ctx.token_data, TokenData { authority: key(2), ..asset() });
    assert_eq!(ctx.authority, key(1));
}

#[test]
fn transfer_authority_is_for_the_controlling_authority() {
    let mut ctx = TransferAuthorityCTX { token_data: asset(), authority: key(9) };
    assert_eq!(transfer_authority(&mut ctx, 0, key(9)), Err(ErrorCode::Unauthorized));
    assert_eq!(ctx.token_data, asset());
}

#[test]
fn transfer_authority_takes_effect_at_once() {
    let mut ctx = TransferAuthorityCTX { token_data: asset(), authority: key(1) };
    assert_eq!(transfer_authority(&mut ctx, 0, key(2)), Ok(()));
    let record = ctx.token_data;

    let mut old = PauseTokenCTX { token_data: record.clone(), authority: key(1) };
    assert_eq!(pause_token(&mut old, 0), Err(ErrorCode::Unauthorized));
    let mut new = PauseTokenCTX { token_data: record.clone(), authority: key(2) };
    assert_eq!(pause_token(&mut new, 0), Ok(()));

    let mut back = TransferAuthorityCTX { token_data: record, authority: key(1) };
    assert_eq!(transfer_authority(&mut back, 0, key(1)), Err(ErrorCode::Unauthorized));
}
