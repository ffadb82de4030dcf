use crate::address::{derived_address, whitelist_address, whitelist_seeds};
use crate::errors::ErrorCode;
use crate::factory::{
    create_token_authorized, create_token_outcome, create_token_result, CreateTokenCTX,
    TokenCreation,
};
use crate::pubkey::Pubkey;
use anchor_lang::prelude::ProgramError;
use spl_tlv_account_resolution::{account, state};
use spl_transfer_hook_interface::instruction::ExecuteInstruction;
use vstd::prelude::*;

verus! {

/// The description of one account that the ledger must hand to the transfer
/// interceptor besides the transfer's own: how its address is found, and
/// whether it signs and may be written.
#[derive(Clone, Copy, Debug, PartialEq, Eq)]
pub struct ExtraAccountMeta {
    /// 0 for an address that is written out in `address_config`.
    pub discriminator: u8,
    pub address_config: [u8; 32],
    pub is_signer: bool,
    pub is_writable: bool,
}

/// What an account description holds, its configuration as a sequence.
pub struct ExtraAccountMetaView {
    pub discriminator: u8,
    pub address_config: Seq<u8>,
    pub is_signer: bool,
    pub is_writable: bool,
}

impl View for ExtraAccountMeta {
    type V = ExtraAccountMetaView;

    open spec fn view(&self) -> ExtraAccountMetaView {
        ExtraAccountMetaView {
            discriminator: self.discriminator,
            address_config: self.address_config@,
            is_signer: self.is_signer,
            is_writable: self.is_writable,
        }
    }
}

/// The views of a list of account descriptions.
pub open spec fn meta_list_view(list: Seq<ExtraAccountMeta>) -> Seq<ExtraAccountMetaView> {
    Seq::new(list.len(), |i: int| list[i]@)
}

/// The image that `ExtraAccountMetaList::init` leaves in a buffer for the
/// transfer's `Execute` instruction, and whether it succeeded.
pub uninterp spec fn execute_meta_list_image(data: Seq<u8>, metas: Seq<ExtraAccountMetaView>) -> (
    bool,
    Seq<u8>,
);

/// Calls `ExtraAccountMeta::new_with_pubkey` of `spl_tlv_account_resolution`:
/// it always succeeds, with discriminator 0, the bytes of the address as the
/// configuration, and the two flags as handed in.
#[verifier::external_body]
fn new_with_pubkey(address: &Pubkey, is_signer: bool, is_writable: bool) -> (r: Result<
    ExtraAccountMeta,
    ProgramError,
>)
    ensures
        r is Ok,
        r matches Ok(meta) ==> meta@ == (ExtraAccountMetaView {
            discriminator: 0,
            address_config: address@,
            is_signer,
            is_writable,
        }),
{
    let key = anchor_lang::prelude::Pubkey::new_from_array(address.bytes);
    account::ExtraAccountMeta::new_with_pubkey(&key, is_signer, is_writable).map(|m| ExtraAccountMeta {
        discriminator: m.discriminator,
        address_config: m.address_config,
        is_signer: m.is_signer.into(),
        is_writable: m.is_writable.into(),
    })
}

/// Calls `ExtraAccountMeta::resolve` of `spl_tlv_account_resolution` on a
/// description with discriminator 0, with the data of the instruction, the
/// program and the keys of the transfer's accounts: the ledger takes the
/// configuration itself as the address and reads none of the others. Other
/// descriptions are left out: for them the call derives an address and
/// panics where there is none.
#[verifier::external_body]
fn resolve_written_address(
    meta: &ExtraAccountMeta,
    instruction_data: &Vec<u8>,
    program_id: &Pubkey,
    account_keys: &Vec<Pubkey>,
) -> (r: Result<Pubkey, ProgramError>)
    requires
        meta.discriminator == 0,
    ensures
        r is Ok,
        r matches Ok(address) ==> address@ == meta.address_config@,
{
    let out = account::ExtraAccountMeta {
        discriminator: meta.discriminator,
        address_config: meta.address_config,
        is_signer: meta.is_signer.into(),
        is_writable: meta.is_writable.into(),
    };
    let keys: Vec<anchor_lang::prelude::Pubkey> =
        account_keys.iter().map(|k| anchor_lang::prelude::Pubkey::new_from_array(k.bytes)).collect();
    let id = anchor_lang::prelude::Pubkey::new_from_array(program_id.bytes);
    out.resolve(instruction_data, &id, |i| keys.get(i).map(|k| (k, None)))
        .map(|m| Pubkey { bytes: m.pubkey.to_bytes() })
}

/// Calls `ExtraAccountMetaList::size_of` of `spl_tlv_account_resolution`:
/// 12 bytes of header and 4 of count, and 35 for each account description.
/// It fails where the count and the descriptions leave `usize`, and stops at
/// `usize::MAX` where only the header does.
#[verifier::external_body]
fn meta_list_size(num_items: usize) -> (r: Result<usize, ProgramError>)
    ensures
        r is Ok <==> 35 * num_items + 4 <= usize::MAX,
        r matches Ok(size) ==> size == if 35 * num_items + 16 <= usize::MAX {
            35 * num_items + 16
        } else {
            usize::MAX as int
        },
{
    state::ExtraAccountMetaList::size_of(num_items)
}

/// Calls `ExtraAccountMetaList::init::<ExecuteInstruction>` of
/// `spl_tlv_account_resolution` on a buffer of zeros. What it leaves in the
/// buffer, and whether it succeeded, is taken to depend on the buffer and the
/// descriptions alone and is named `execute_meta_list_image`. Beside that:
/// the buffer keeps its length, and the call succeeds where the buffer has
/// room for the header, the count and the descriptions, and the count and
/// the descriptions fit the header's 32-bit length. A buffer that is not all
/// zeros is left out: the call unwraps its reading of what the buffer holds.
#[verifier::external_body]
fn init_execute_meta_list(data: &mut Vec<u8>, metas: &Vec<ExtraAccountMeta>) -> (r: Result<
    (),
    ProgramError,
>)
    requires
        forall|i: int| 0 <= i < old(data)@.len() ==> old(data)@[i] == 0,
    ensures
        (r is Ok, final(data)@) == execute_meta_list_image(old(data)@, meta_list_view(metas@)),
        final(data)@.len() == old(data)@.len(),
        old(data)@.len() >= 35 * metas@.len() + 16 && 35 * metas@.len() + 4 <= u32::MAX ==> r is Ok,
{
    let out: Vec<account::ExtraAccountMeta> = metas.iter().map(|m| account::ExtraAccountMeta {
        discriminator: m.discriminator,
        address_config: m.address_config,
        is_signer: m.is_signer.into(),
        is_writable: m.is_writable.into(),
    }).collect();
    state::ExtraAccountMetaList::init::<ExecuteInstruction>(data.as_mut_slice(), &out)
}

/// The description of a whitelist store that stands at `address`: the
/// address written out, not a signer, writable.
pub open spec fn whitelist_recipe(address: Seq<u8>) -> ExtraAccountMetaView {
    ExtraAccountMetaView {
        discriminator: 0,
        address_config: address,
        is_signer: false,
        is_writable: true,
    }
}

/// The address that the ledger takes for a description in which the address
/// is written out, whatever the transfer's instruction and accounts are;
/// `None` for a description of another form, which this library does not
/// write.
pub open spec fn written_address(meta: ExtraAccountMetaView) -> Option<Seq<u8>> {
    if meta.discriminator == 0 {
        Some(meta.address_config)
    } else {
        None
    }
}

/// Resolves a description as the ledger does at a transfer, given the data
/// of the transfer's instruction, the interceptor's program and the keys of
/// the transfer's accounts. Descriptions in which no address is written out
/// resolve to nothing: the library writes none.
pub fn resolve_extra_account(
    meta: &ExtraAccountMeta,
    instruction_data: &Vec<u8>,
    program_id: &Pubkey,
    account_keys: &Vec<Pubkey>,
) -> (r: Option<Pubkey>)
    ensures
        match written_address(meta@) {
            Some(address) => r matches Some(key) && key@ == address,
            None => r is None,
        },
{
    if meta.discriminator != 0 {
        return None;
    }
    match resolve_written_address(meta, instruction_data, program_id, account_keys) {
        Ok(address) => Some(address),
        Err(_) => None,
    }
}

/// What `initialize_extra_account_meta_list` is handed: the interceptor's
/// program, the place of the asset's recipe record, empty until it is
/// written, the asset, and the authority that created it.
#[derive(Clone, Debug, PartialEq, Eq)]
pub struct InitializeExtraAccountMetaList {
    pub program_id: Pubkey,
    pub extra_account_meta_list: Option<Vec<u8>>,
    pub mint: Pubkey,
    pub authority: Pubkey,
}

/// The recipe of an asset, given the address of its whitelist store as it
/// was derived: the one description of that store, or an invalid amount
/// where no address could be derived.
pub fn whitelist_store_metas(whitelist: Option<Pubkey>) -> (r: Result<Vec<ExtraAccountMeta>, ErrorCode>)
    ensures
        match whitelist {
            Some(address) => r matches Ok(metas) && meta_list_view(metas@) == seq![
                whitelist_recipe(address@),
            ],
            None => r == Err::<Vec<ExtraAccountMeta>, ErrorCode>(ErrorCode::InvalidAmount),
        },
{
    let address = match whitelist {
        Some(address) => address,
        None => {
            return Err(ErrorCode::InvalidAmount);
        },
    };
    match new_with_pubkey(&address, false, true) {
        Ok(meta) => {
            let mut metas: Vec<ExtraAccountMeta> = Vec::new();
            metas.push(meta);
            assert(meta_list_view(metas@) =~= seq![whitelist_recipe(address@)]);
            Ok(metas)
        },
        Err(_) => Err(ErrorCode::InvalidAmount),
    }
}

impl InitializeExtraAccountMetaList {
    /// The accounts that the ledger must hand to the interceptor besides the
    /// transfer's own, for the asset that `authority` created under sequence
    /// number `token_count`: the asset's whitelist store, at the address
    /// that the tag, the authority and the sequence number derive under the
    /// program. Where they derive none, the recipe is an invalid amount.
    pub fn extra_account_metas(program_id: &Pubkey, authority: &Pubkey, token_count: u64) -> (r:
        Result<Vec<ExtraAccountMeta>, ErrorCode>)
        ensures
            match derived_address(whitelist_seeds(*authority, token_count), *program_id) {
                Some(address) => r matches Ok(metas) && meta_list_view(metas@) == seq![
                    whitelist_recipe(address),
                ],
                None => r == Err::<Vec<ExtraAccountMeta>, ErrorCode>(ErrorCode::InvalidAmount),
            },
    {
        let whitelist = match whitelist_address(program_id, authority, token_count) {
            Some((address, _)) => Some(address),
            None => None,
        };
        whitelist_store_metas(whitelist)
    }
}

/// The recipe of an asset resolves, at every transfer, to the address that
/// the whitelist tag, the creating authority and the sequence number derive:
/// the address of the asset's whitelist store.
pub proof fn lemma_recipe_resolves_to_the_whitelist_store(
    program_id: Pubkey,
    authority: Pubkey,
    token_count: u64,
)
    ensures
        derived_address(whitelist_seeds(authority, token_count), program_id) matches Some(address)
            ==> written_address(whitelist_recipe(address)) == Some(address),
{
}

/// The recipe of an asset that `create_token` made finds the whitelist store
/// that the asset's record names: the recipe of the creating authority and
/// the sequence number of the creation holds the address in the record, and
/// the ledger resolves it to that address at every transfer.
pub proof fn lemma_recipe_finds_the_created_store(
    before: CreateTokenCTX,
    after: CreateTokenCTX,
    created: TokenCreation,
    total_supply: u64,
    decimals: u8,
    name: Seq<char>,
    symbol: Seq<char>,
    uri: Seq<char>,
    default_address: Pubkey,
)
    requires
        create_token_result(
            before,
            after,
            Ok(created),
            create_token_outcome(
                create_token_authorized(before),
                before.factory.token_count,
                total_supply,
                decimals,
                name,
                symbol,
                uri,
            ),
            total_supply,
            decimals,
            name,
            symbol,
            uri,
            default_address,
        ),
    ensures
        derived_address(whitelist_seeds(before.authority, before.factory.token_count), before.program_id)
            == Some(created.token_data.whitelist@),
        written_address(whitelist_recipe(created.token_data.whitelist@)) == Some(
            created.token_data.whitelist@,
        ),
{
}

/// A buffer of `len` zeros.
pub open spec fn zeros(len: nat) -> Seq<u8> {
    Seq::new(len, |i: int| 0u8)
}

/// A new buffer of `len` zeros.
pub fn zeroed(len: usize) -> (r: Vec<u8>)
    ensures
        r@ == zeros(len as nat),
{
    let mut data: Vec<u8> = Vec::new();
    while data.len() < len
        invariant
            data@.len() <= len,
            data@ == zeros(data@.len()),
        decreases len - data@.len(),
    {
        data.push(0u8);
        assert(data@ =~= zeros(data@.len()));
    }
    data
}

/// The number of bytes of a record that holds `num_items` account
/// descriptions: 16 and 35 for each, as far as `usize` goes.
pub open spec fn execute_meta_list_len(num_items: nat) -> Option<nat> {
    if 35 * num_items + 4 > usize::MAX {
        None
    } else if 35 * num_items + 16 <= usize::MAX {
        Some(35 * num_items + 16)
    } else {
        Some(usize::MAX as nat)
    }
}

/// The number of bytes that the ledger asks for a record of `num_items`
/// account descriptions.
pub fn execute_meta_list_size(num_items: usize) -> (r: Option<usize>)
    ensures
        match execute_meta_list_len(num_items as nat) {
            Some(len) => r matches Some(size) && size == len,
            None => r is None,
        },
{
    match meta_list_size(num_items) {
        Ok(size) => Some(size),
        Err(_) => None,
    }
}

/// The record that holds a list of account descriptions for the transfer's
/// `Execute` instruction: what the ledger's writer leaves in a buffer of
/// zeros of the size it asks for, or `None` where it asks for no size or
/// does not write.
pub open spec fn execute_meta_list_record(metas: Seq<ExtraAccountMetaView>) -> Option<Seq<u8>> {
    match execute_meta_list_len(metas.len()) {
        None => None,
        Some(len) => {
            let (written, image) = execute_meta_list_image(zeros(len), metas);
            if written {
                Some(image)
            } else {
                None
            }
        },
    }
}

/// Writes a new record that holds the account descriptions for the
/// transfer's `Execute` instruction. The record is written whenever its
/// length fits `usize` and the header's 32-bit length.
pub fn write_execute_meta_list(metas: &Vec<ExtraAccountMeta>) -> (r: Option<Vec<u8>>)
    ensures
        match execute_meta_list_record(meta_list_view(metas@)) {
            Some(image) => r matches Some(data) && data@ == image,
            None => r is None,
        },
        r matches Some(data) ==> execute_meta_list_len(metas@.len()) == Some(data@.len()),
        35 * metas@.len() + 16 <= usize::MAX && 35 * metas@.len() + 4 <= u32::MAX ==> r is Some,
{
    assert(metas@.len() == meta_list_view(metas@).len());
    let size = match execute_meta_list_size(metas.len()) {
        Some(size) => size,
        None => {
            return None;
        },
    };
    let mut data = zeroed(size);
    match init_execute_meta_list(&mut data, metas) {
        Ok(()) => Some(data),
        Err(_) => None,
    }
}

/// Puts a recipe record in its place, which must be empty. `written` is the
/// record, or `None` where it could not be written, which is reported as an
/// invalid amount. On an error nothing changes.
pub fn keep_extra_account_meta_list(
    ctx: &mut InitializeExtraAccountMetaList,
    written: Option<Vec<u8>>,
) -> (r: Result<(), ErrorCode>)
    ensures
        match (old(ctx).extra_account_meta_list, written) {
            (Some(_), _) => r == Err::<(), ErrorCode>(ErrorCode::AlreadyExists) && *final(ctx)
                == *old(ctx),
            (None, None) => r == Err::<(), ErrorCode>(ErrorCode::InvalidAmount) && *final(ctx)
                == *old(ctx),
            (None, Some(data)) => r == Ok::<(), ErrorCode>(()) && *final(ctx) == (
            InitializeExtraAccountMetaList { extra_account_meta_list: Some(data), ..*old(ctx) }),
        },
{
    if ctx.extra_account_meta_list.is_some() {
        return Err(ErrorCode::AlreadyExists);
    }
    match written {
        Some(data) => {
            ctx.extra_account_meta_list = Some(data);
            Ok(())
        },
        None => Err(ErrorCode::InvalidAmount),
    }
}

/// Writes the recipe of the asset that `ctx.authority` created under
/// sequence number `token_count` into a new record of 51 bytes, for the
/// ledger to replay at every transfer. A second writing is an error; so is a
/// whitelist address that cannot be derived. Either changes nothing.
/// Otherwise the record is written.
pub fn initialize_extra_account_meta_list(
    ctx: &mut InitializeExtraAccountMetaList,
    token_count: u64,
) -> (r: Result<(), ErrorCode>)
    ensures
        match old(ctx).extra_account_meta_list {
            Some(_) => r == Err::<(), ErrorCode>(ErrorCode::AlreadyExists) && *final(ctx) == *old(
                ctx,
            ),
            None => match derived_address(
                whitelist_seeds(old(ctx).authority, token_count),
                old(ctx).program_id,
            ) {
                None => r == Err::<(), ErrorCode>(ErrorCode::InvalidAmount) && *final(ctx) == *old(
                    ctx,
                ),
                Some(address) => {
                    &&& r == Ok::<(), ErrorCode>(())
                    &&& final(ctx).extra_account_meta_list matches Some(data) && data@.len() == 51
                        && data@ == execute_meta_list_image(
                        zeros(51),
                        seq![whitelist_recipe(address)],
                    ).1
                    &&& final(ctx).program_id == old(ctx).program_id
                    &&& final(ctx).mint == old(ctx).mint
                    &&& final(ctx).authority == old(ctx).authority
                },
            },
        },
{
    if ctx.extra_account_meta_list.is_some() {
        return Err(ErrorCode::AlreadyExists);
    }
    let metas = match InitializeExtraAccountMetaList::extra_account_metas(
        &ctx.program_id,
        &ctx.authority,
        token_count,
    ) {
        Ok(metas) => metas,
        Err(e) => {
            return Err(e);
        },
    };
    assert(metas@.len() == meta_list_view(metas@).len());
    let written = write_execute_meta_list(&metas);
    keep_extra_account_meta_list(ctx, written)
}

} // verus!
