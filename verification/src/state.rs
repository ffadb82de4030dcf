use crate::pubkey::Pubkey;
use vstd::prelude::*;
use vstd::utf8::encode_utf8;

verus! {

/// The factory index of one authority: the counter that numbers its assets.
#[derive(Clone, Debug, PartialEq, Eq)]
pub struct TokenFactory {
    pub authority: Pubkey,
    /// The sequence number that the next asset gets.
    pub token_count: u64,
}

/// The registry record of one asset.
#[derive(Clone, Debug, PartialEq, Eq)]
pub struct TokenData {
    /// The asset on the ledger that this record is about.
    pub mint: Pubkey,
    /// The controlling authority.
    pub authority: Pubkey,
    /// The supply in human units.
    pub total_supply: u64,
    pub decimals: u8,
    /// Whether transfers are paused.
    pub is_paused: bool,
    pub is_minting_paused: bool,
    pub name: String,
    pub symbol: String,
    pub uri: String,
    /// The address of the asset's whitelist store.
    pub whitelist: Pubkey,
}

/// What a registry record holds, its texts as sequences of characters.
pub struct TokenDataView {
    pub mint: Pubkey,
    pub authority: Pubkey,
    pub total_supply: u64,
    pub decimals: u8,
    pub is_paused: bool,
    pub is_minting_paused: bool,
    pub name: Seq<char>,
    pub symbol: Seq<char>,
    pub uri: Seq<char>,
    pub whitelist: Pubkey,
}

impl View for TokenData {
    type V = TokenDataView;

    open spec fn view(&self) -> TokenDataView {
        TokenDataView {
            mint: self.mint,
            authority: self.authority,
            total_supply: self.total_supply,
            decimals: self.decimals,
            is_paused: self.is_paused,
            is_minting_paused: self.is_minting_paused,
            name: self.name@,
            symbol: self.symbol@,
            uri: self.uri@,
            whitelist: self.whitelist,
        }
    }
}

impl TokenData {
    /// The texts of the record keep to their limits: 32 bytes for the name,
    /// 10 for the symbol, 200 for the URI.
    pub open spec fn wf(&self) -> bool {
        &&& encode_utf8(self.name@).len() <= 32
        &&& encode_utf8(self.symbol@).len() <= 10
        &&& encode_utf8(self.uri@).len() <= 200
    }
}

/// The identity that mints for an asset in place of its controlling
/// authority: a derived address and the bump that made it.
#[derive(Clone, Copy, Debug, PartialEq, Eq)]
pub struct MintingDelegate {
    pub address: Pubkey,
    pub bump: u8,
}

} // verus!
