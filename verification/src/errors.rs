use anchor_lang::prelude::ProgramError;
use vstd::prelude::*;

verus! {

/// `ProgramError` of `solana_program`, as `anchor_lang` hands it on: the
/// error of the ledger's own functions. The library carries it from a call to
/// the place where it is turned into an `ErrorCode`, and reads nothing of it.
#[verifier::external_type_specification]
#[verifier::external_body]
pub struct ExProgramError(ProgramError);

/// The one reason an operation gives when it fails. A failed operation leaves
/// every record it was handed as it found it.
#[derive(Clone, Copy, Debug, PartialEq, Eq, Structural)]
pub enum ErrorCode {
    /// A record that is created once was there already.
    AlreadyExists,
    /// The display name takes more than 32 bytes.
    NameTooLong,
    /// The symbol takes more than 10 bytes.
    SymbolTooLong,
    /// The metadata URI takes more than 200 bytes.
    UriTooLong,
    /// A zero amount, or arithmetic that leaves `u64`; also a recipe that
    /// cannot be derived or written.
    InvalidAmount,
    /// Transfers of the asset are paused.
    TransfersPaused,
    /// Minting of the asset is paused.
    MintingPaused,
    /// The destination's owner is not on the asset's whitelist.
    AddressNotWhitelisted,
    /// The interceptor was called outside a transfer in flight.
    IsNotCurrentlyTransferring,
    /// The caller is not the authority the records name.
    Unauthorized,
}

impl ErrorCode {
    /// The text shown to a user for each error.
    pub open spec fn message_text(self) -> Seq<char> {
        match self {
            ErrorCode::AlreadyExists => "Record already exists"@,
            ErrorCode::NameTooLong => "Name is too long (max 32 characters)"@,
            ErrorCode::SymbolTooLong => "Symbol is too long (max 10 characters)"@,
            ErrorCode::UriTooLong => "URI is too long (max 200 characters)"@,
            ErrorCode::InvalidAmount => "Invalid amount"@,
            ErrorCode::TransfersPaused => "Token transfers are paused"@,
            ErrorCode::MintingPaused => "Token minting is paused"@,
            ErrorCode::AddressNotWhitelisted => "Address is not whitelisted"@,
            ErrorCode::IsNotCurrentlyTransferring => "Transfer hook error: not currently transferring"@,
            ErrorCode::Unauthorized => "Unauthorized"@,
        }
    }

    /// The text of the error, for the host to show.
    pub fn message(&self) -> (r: &'static str)
        ensures
            r@ == self.message_text(),
    {
        match self {
            ErrorCode::AlreadyExists => "Record already exists",
            ErrorCode::NameTooLong => "Name is too long (max 32 characters)",
            ErrorCode::SymbolTooLong => "Symbol is too long (max 10 characters)",
            ErrorCode::UriTooLong => "URI is too long (max 200 characters)",
            ErrorCode::InvalidAmount => "Invalid amount",
            ErrorCode::TransfersPaused => "Token transfers are paused",
            ErrorCode::MintingPaused => "Token minting is paused",
            ErrorCode::AddressNotWhitelisted => "Address is not whitelisted",
            ErrorCode::IsNotCurrentlyTransferring => "Transfer hook error: not currently transferring",
            ErrorCode::Unauthorized => "Unauthorized",
        }
    }
}

} // verus!
