use crate::pubkey::Pubkey;
use crate::state::MintingDelegate;
use vstd::prelude::*;

verus! {

/// A request to the ledger to mint raw units of an asset into a holding
/// account, signed by the asset's minting delegate.
#[derive(Clone, Copy, Debug, PartialEq, Eq)]
pub struct MintTo {
    pub mint: Pubkey,
    pub to: Pubkey,
    pub authority: MintingDelegate,
    /// The amount in raw units.
    pub amount: u64,
}

/// A request to the ledger to burn raw units of an asset from a holding
/// account of the caller.
#[derive(Clone, Copy, Debug, PartialEq, Eq)]
pub struct Burn {
    pub mint: Pubkey,
    pub from: Pubkey,
    pub authority: Pubkey,
    /// The amount in raw units.
    pub amount: u64,
}

/// A request to the ledger to open the holding account of `authority` for an
/// asset, paid for by `payer`.
#[derive(Clone, Copy, Debug, PartialEq, Eq)]
pub struct CreateHoldingAccount {
    pub payer: Pubkey,
    pub associated_token: Pubkey,
    pub authority: Pubkey,
    pub mint: Pubkey,
}

/// A request to the metadata registrar to record the texts of an asset.
#[derive(Clone, Debug, PartialEq, Eq)]
pub struct RegisterMetadata {
    pub mint: Pubkey,
    /// The delegate that signs, and that may update the texts later.
    pub authority: MintingDelegate,
    pub payer: Pubkey,
    pub name: String,
    pub symbol: String,
    pub uri: String,
    pub decimals: u8,
    pub is_mutable: bool,
}

/// What a metadata request holds, its texts as sequences of characters.
pub struct RegisterMetadataView {
    pub mint: Pubkey,
    pub authority: MintingDelegate,
    pub payer: Pubkey,
    pub name: Seq<char>,
    pub symbol: Seq<char>,
    pub uri: Seq<char>,
    pub decimals: u8,
    pub is_mutable: bool,
}

impl View for RegisterMetadata {
    type V = RegisterMetadataView;

    open spec fn view(&self) -> RegisterMetadataView {
        RegisterMetadataView {
            mint: self.mint,
            authority: self.authority,
            payer: self.payer,
            name: self.name@,
            symbol: self.symbol@,
            uri: self.uri@,
            decimals: self.decimals,
            is_mutable: self.is_mutable,
        }
    }
}

} // verus!
