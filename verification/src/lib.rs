pub mod address;
pub mod amount;
pub mod controls;
pub mod errors;
pub mod factory;
pub mod hook;
pub mod ledger;
pub mod pubkey;
pub mod resolver;
pub mod state;
pub mod supply;
pub mod whitelist;

pub use crate::address::{
    extra_account_metas_address, factory_address, mint_authority_address, token_data_address,
    whitelist_address,
};
pub use crate::amount::to_raw_units;
pub use crate::controls::{
    pause_minting, pause_token, transfer_authority, PauseMintingCTX, PauseTokenCTX,
    TransferAuthorityCTX,
};
pub use crate::errors::ErrorCode;
pub use crate::factory::{
    check_create_token_accounts, create_factory, create_token, create_token_after_check,
    CreateFactoryCTX, CreateTokenCTX, TokenCreation,
};
pub use crate::hook::{
    check_is_transferring, judge_transfer, read_transferring, require_transferring, transfer_hook,
    TokenAccount, TransferHook,
};
pub use crate::ledger::{Burn, CreateHoldingAccount, MintTo, RegisterMetadata};
pub use crate::pubkey::Pubkey;
pub use crate::resolver::{
    execute_meta_list_size, initialize_extra_account_meta_list, keep_extra_account_meta_list,
    resolve_extra_account, whitelist_store_metas, write_execute_meta_list, ExtraAccountMeta,
    InitializeExtraAccountMetaList,
};
pub use crate::state::{MintingDelegate, TokenData, TokenFactory};
pub use crate::supply::{burn_tokens, mint_tokens, BurnTokensCTX, MintTokensCTX};
pub use crate::whitelist::{
    add_to_whitelist, get_whitelist, remove_from_whitelist, AddToWhitelistCTX, GetWhitelistCTX,
    RemoveFromWhitelistCTX, Whitelist,
};
