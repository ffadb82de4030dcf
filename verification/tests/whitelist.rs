use potter_potter::{
    add_to_whitelist, get_whitelist, remove_from_whitelist, AddToWhitelistCTX, ErrorCode,
    GetWhitelistCTX, Pubkey, RemoveFromWhitelistCTX, TokenData, Whitelist,
};

fn key(n: u8) -> Pubkey {
    Pubkey::new_from_array([n; 32])
}

fn keys(ns: &[u8]) -> Vec<Pubkey> {
    ns.iter().map(|n| key(*n)).collect()
}

fn asset(authority: u8) -> TokenData {
    TokenData {
        mint: key(50),
        authority: key(authority),
        total_supply: 1000,
        decimals: 6,
        is_paused: false,
        is_minting_paused: false,
        name: "Gold".to_string(),
        symbol: "GLD".to_string(),
        uri: "https://x".to_string(),
        whitelist: key(60),
    }
}

fn adding(list: &[u8]) -> AddToWhitelistCTX {
    AddToWhitelistCTX {
        token_data: asset(1),
        whitelist: Whitelist { addresses: keys(list) },
        authority: key(1),
    }
}

fn removing(list: &[u8]) -> RemoveFromWhitelistCTX {
    RemoveFromWhitelistCTX {
        token_data: asset(1),
        whitelist: Whitelist { addresses: keys(list) },
        authority: key(1),
    }
}

#[test]
fn new_whitelist_holds_its_one_identity() {
    let store = Whitelist::new(key(2));
    assert_eq!(store.addresses, keys(&[2]));
    assert!(store.contains(&key(2)));
    assert!(!store.contains(&key(3)));
}

#[test]
fn add_appends_in_the_order_given() {
    let mut ctx = adding(&[2]);
    assert_eq!(add_to_whitelist(&mut ctx, 0, keys(&[5, 3, 4])), Ok(()));
    assert_eq!(ctx.whitelist.addresses, keys(&[2, 5, 3, 4]));
    assert_eq!(ctx.token_data, asset(1));
    assert_eq!(ctx.authority, key(1));
}

#[test]
fn add_passes_over_what_is_on_the_list() {
    let mut ctx = adding(&[2, 3]);
    assert_eq!(add_to_whitelist(&mut ctx, 0, keys(&[3, 4, 2, 4, 5, 5])), Ok(()));
    assert_eq!(ctx.whitelist.addresses, keys(&[2, 3, 4, 5]));
}

#[test]
fn add_is_idempotent() {
    let mut once = adding(&[2]);
    assert_eq!(add_to_whitelist(&mut once, 0, keys(&[7, 8])), Ok(()));
    let mut twice = adding(&[2]);
    assert_eq!(add_to_whitelist(&mut twice, 0, keys(&[7, 8])), Ok(()));
    assert_eq!(add_to_whitelist(&mut twice, 0, keys(&[7, 8])), Ok(()));
    assert_eq!(twice, once);
    assert_eq!(twice.whitelist.addresses, keys(&[2, 7, 8]));
}

#[test]
fn add_of_nothing_changes_nothing() {
    let mut ctx = adding(&[2, 3]);
    let before = ctx.clone();
    assert_eq!(add_to_whitelist(&mut ctx, 0, Vec::new()), Ok(()));
    assert_eq!(ctx, before);

    let mut empty = adding(&[]);
    assert_eq!(add_to_whitelist(&mut empty, 0, Vec::new()), Ok(()));
    assert_eq!(empty.whitelist.addresses, Vec::new());
}

#[test]
fn add_is_for_the_controlling_authority() {
    let mut ctx = adding(&[2]);
    ctx.authority = key(9);
    let before = ctx.clone();
    assert_eq!(add_to_whitelist(&mut ctx, 0, keys(&[3])), Err(ErrorCode::Unauthorized));
    assert_eq!(ctx, before);
    assert_eq!(add_to_whitelist(&mut ctx, 0, Vec::new()), Err(ErrorCode::Unauthorized));
}

#[test]
fn add_grows_past_ten_identities() {
    let mut ctx = adding(&[0]);
    let many: Vec<u8> = (1..=40).collect();
    assert_eq!(add_to_whitelist(&mut ctx, 0, keys(&many)), Ok(()));
    assert_eq!(ctx.whitelist.addresses.len(), 41);
    assert_eq!(ctx.whitelist.addresses[40], key(40));
}

#[test]
fn remove_keeps_the_others_in_order() {
    let mut ctx = removing(&[2, 3, 4, 5, 6]);
    assert_eq!(remove_from_whitelist(&mut ctx, 0, keys(&[5, 2])), Ok(()));
    assert_eq!(ctx.whitelist.addresses, keys(&[3, 4, 6]));
    assert_eq!(ctx.token_data, asset(1));
    assert_eq!(ctx.authority, key(1));
}

#[test]
fn remove_of_an_absent_identity_changes_nothing() {
    let mut ctx = removing(&[2, 3]);
    let before = ctx.clone();
    assert_eq!(remove_from_whitelist(&mut ctx, 0, keys(&[9])), Ok(()));
    assert_eq!(ctx, before);
    assert_eq!(remove_from_whitelist(&mut ctx, 0, keys(&[8, 9, 8])), Ok(()));
    assert_eq!(ctx, before);
}

#[test]
fn remove_of_nothing_changes_nothing() {
    let mut ctx = removing(&[2, 3]);
    let before = ctx.clone();
    assert_eq!(remove_from_whitelist(&mut ctx, 0, Vec::new()), Ok(()));
    assert_eq!(ctx, before);
}

#[test]
fn remove_takes_every_copy_in_a_list_handed_in_with_repeats() {
    let mut ctx = removing(&[2, 3, 2, 4, 2]);
    assert_eq!(remove_from_whitelist(&mut ctx, 0, keys(&[2])), Ok(()));
    assert_eq!(ctx.whitelist.addresses, keys(&[3, 4]));
}

#[test]
fn remove_can_empty_the_list() {
    let mut ctx = removing(&[2, 3]);
    assert_eq!(remove_from_whitelist(&mut ctx, 0, keys(&[3, 2, 3])), Ok(()));
    assert_eq!(ctx.whitelist.addresses, Vec::new());
}

#[test]
fn remove_is_for_the_controlling_authority() {
    let mut ctx = removing(&[2, 3]);
    ctx.authority = key(9);
    let before = ctx.clone();
    assert_eq!(remove_from_whitelist(&mut ctx, 0, keys(&[3])), Err(ErrorCode::Unauthorized));
    assert_eq!(ctx, before);
}

#[test]
fn removed_identity_can_be_added_again_at_the_end() {
    let mut ctx = removing(&[2, 3, 4]);
    assert_eq!(remove_from_whitelist(&mut ctx, 0, keys(&[2])), Ok(()));
    let mut ctx = AddToWhitelistCTX {
        token_data: ctx.token_data,
        whitelist: ctx.whitelist,
        authority: ctx.authority,
    };
    assert_eq!(add_to_whitelist(&mut ctx, 0, keys(&[2])), Ok(()));
    assert_eq!(ctx.whitelist.addresses, keys(&[3, 4, 2]));
}

#[test]
fn get_whitelist_lists_in_insertion_order() {
    let ctx = GetWhitelistCTX {
        authority: key(1),
        token_data: asset(1),
        whitelist: Whitelist { addresses: keys(&[4, 2, 3]) },
    };
    let before = ctx.clone();
    assert_eq!(get_whitelist(&ctx, 0), Ok(keys(&[4, 2, 3])));
    assert_eq!(ctx, before);
}

#[test]
fn get_whitelist_is_open_to_any_caller() {
    let ctx = GetWhitelistCTX {
        authority: key(9),
        token_data: asset(1),
        whitelist: Whitelist { addresses: Vec::new() },
    };
    assert_eq!(get_whitelist(&ctx, 0), Ok(Vec::new()));
}

#[test]
fn insert_and_remove_all_on_the_store() {
    let mut store = Whitelist::new(key(2));
    store.insert(key(3));
    store.insert(key(2));
    assert_eq!(store.addresses, keys(&[2, 3]));
    store.remove_all(&keys(&[2, 7]));
    assert_eq!(store.addresses, keys(&[3]));
}
