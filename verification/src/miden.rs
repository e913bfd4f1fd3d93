//! The boundary to the Miden SDK.
//!
//! Everything in this file is believed, not proved. The SDK's types are declared opaque. Each
//! function makes one call into the SDK, or one chain of calls on one value, under a contract
//! that restates what the SDK's source shows. Where a result is settled by the arguments but
//! takes an assembler or a hash function to compute, it only gets a name. The rest of the crate
//! is verified against these contracts.

use crate::account::{AccountKind, StorageMode};
use crate::text::is_digest_hex;
use miden_client::transaction::{
    TransactionKernel, TransactionRequest, TransactionRequestBuilder, TransactionRequestError,
};
use miden_client::{ClientError, Felt};
use miden_objects::account::{
    Account, AccountBuilder, AccountComponent, AccountIdAnchor, AccountStorageMode, AccountType,
    StorageSlot,
};
use miden_objects::block::BlockNumber;
use miden_objects::transaction::TransactionScript;
use miden_objects::{AccountError, AccountIdError, Digest};
use rand::Rng;
use rand_chacha::rand_core::SeedableRng;
use rand_chacha::ChaCha20Rng;
use vstd::prelude::*;

verus! {

/// An element of the field that the virtual machine computes in. Four of them make a word. Opaque here.
#[verifier::external_type_specification]
#[verifier::external_body]
pub struct ExFelt(Felt);

/// A hash value: the commitment to a block, a procedure root. Opaque here.
#[verifier::external_type_specification]
#[verifier::external_body]
pub struct ExDigest(Digest);

/// A compiled module with its storage slots and the account types that it supports. Opaque here.
#[verifier::external_type_specification]
#[verifier::external_body]
pub struct ExAccountComponent(AccountComponent);

/// The epoch and the block hash that an account identifier is bound to. Opaque here.
#[verifier::external_type_specification]
#[verifier::external_body]
pub struct ExAccountIdAnchor(AccountIdAnchor);

/// An account: identifier, code, storage, vault and nonce. Opaque here.
#[verifier::external_type_specification]
#[verifier::external_body]
pub struct ExAccount(Account);

/// A compiled transaction script. Opaque here.
#[verifier::external_type_specification]
#[verifier::external_body]
pub struct ExTransactionScript(TransactionScript);

/// What the client is asked to execute as one transaction. Opaque here.
#[verifier::external_type_specification]
#[verifier::external_body]
pub struct ExTransactionRequest(TransactionRequest);

/// Why a component or an account could not be made. Opaque here.
#[verifier::external_type_specification]
#[verifier::external_body]
pub struct ExAccountError(AccountError);

/// Why an anchor or an identifier was refused. Opaque here.
#[verifier::external_type_specification]
#[verifier::external_body]
pub struct ExAccountIdError(AccountIdError);

/// Why a transaction request could not be made. Opaque here.
#[verifier::external_type_specification]
#[verifier::external_body]
pub struct ExTransactionRequestError(TransactionRequestError);

/// A failure of the client. Opaque here.
#[verifier::external_type_specification]
#[verifier::external_body]
pub struct ExClientError(ClientError);

/// What the assembler of the transaction kernel makes of a module's source, as a component with
/// one value slot.
pub uninterp spec fn compiled_component(source: Seq<char>, debug: bool, slot: Seq<u64>) -> Result<
    AccountComponent,
    AccountError,
>;

/// A component once it supports every type of account.
pub uninterp spec fn all_types_supported(component: AccountComponent) -> AccountComponent;

/// The procedures that a component's library exports, in the order in which the library lists
/// them: each with its name and the digest of its root, written in hexadecimal.
pub uninterp spec fn exported_procedures(component: AccountComponent) -> Seq<
    (Seq<char>, Seq<char>),
>;

/// The anchor that the SDK makes of a block's number and hash, or its refusal.
pub uninterp spec fn anchor_of(block_num: u32, block_hash: Digest) -> Result<
    AccountIdAnchor,
    AccountIdError,
>;

/// What the SDK's account builder returns for a seed, an anchor, a kind, a storage mode and a
/// single component: an account and the seed that its identifier was ground from.
pub uninterp spec fn built_account(
    init_seed: Seq<u8>,
    anchor: AccountIdAnchor,
    kind: AccountKind,
    mode: StorageMode,
    component: AccountComponent,
) -> Result<(Account, [Felt; 4]), AccountError>;

/// The identifier of an account, as the number that the SDK converts it to.
pub uninterp spec fn account_number(account: Account) -> u128;

/// The transaction request that carries a script and nothing else.
pub uninterp spec fn request_for(script: TransactionScript) -> Result<
    TransactionRequest,
    TransactionRequestError,
>;

/// `AccountComponent::compile`, with the assembler that `TransactionKernel::assembler` returns,
/// put into debug mode or not by `Assembler::with_debug_mode`, and one `StorageSlot::Value`.
/// The assembler works on the source alone, so the outcome is named; whether a source compiles
/// is not stated here.
#[verifier::external_body]
pub(crate) fn compile_component(source: &str, debug: bool, slot: [u64; 4]) -> (outcome: Result<
    AccountComponent,
    AccountError,
>)
    ensures
        outcome == compiled_component(source@, debug, slot@),
{
    let assembler = TransactionKernel::assembler().with_debug_mode(debug);
    AccountComponent::compile(source, assembler, vec![StorageSlot::Value(slot.map(Felt::new))])
}

/// `AccountComponent::with_supports_all_types`: it adds the four account types to the set that
/// the component supports, and leaves its library, hence its exports, as they were.
#[verifier::external_body]
pub(crate) fn support_all_types(component: AccountComponent) -> (widened: AccountComponent)
    ensures
        widened == all_types_supported(component),
        exported_procedures(widened) == exported_procedures(component),
{
    component.with_supports_all_types()
}

/// `Library::exports` on the component's library: the names of the exported procedures, in the
/// library's order, which is that of an ordered map.
#[verifier::external_body]
pub(crate) fn export_names(component: &AccountComponent) -> (names: Vec<String>)
    ensures
        names@.len() == exported_procedures(*component).len(),
        forall|i: int|
            0 <= i < names@.len() ==> (#[trigger] names@[i])@ == exported_procedures(
                *component,
            )[i].0,
{
    component.library().exports().map(|export| export.name.as_str().to_string()).collect()
}

/// `Library::get_export_node_id`, `MastForest::get_node_by_id`, `MastNode::digest` and
/// `RpoDigest::to_hex` for the export at `index`: the digest of its root. The SDK writes a digest
/// as `0x` and 64 lower-case hexadecimal digits. A library holds a node for each of its exports.
#[verifier::external_body]
pub(crate) fn export_digest(component: &AccountComponent, index: usize) -> (hex: String)
    requires
        index < exported_procedures(*component).len(),
    ensures
        hex@ == exported_procedures(*component)[index as int].1,
        is_digest_hex(hex@),
{
    let library = component.library();
    let export = library.exports().nth(index).unwrap();
    let node = library.get_export_node_id(export);
    library.mast_forest().get_node_by_id(node).unwrap().digest().to_hex()
}

/// `ChaCha20Rng::from_entropy().gen()`: 32 bytes from a generator that the operating system
/// seeds. Nothing is claimed of them.
#[verifier::external_body]
pub(crate) fn fresh_seed() -> [u8; 32] {
    ChaCha20Rng::from_entropy().gen()
}

/// `AccountIdAnchor::new`: it accepts a block exactly when the block opens an epoch, that is
/// when the low 16 bits of its number are zero, and the epoch, the high 16 bits, is not 0xffff.
#[verifier::external_body]
pub(crate) fn id_anchor(block_num: u32, block_hash: Digest) -> (anchor: Result<
    AccountIdAnchor,
    AccountIdError,
>)
    ensures
        anchor == anchor_of(block_num, block_hash),
        anchor is Ok <==> crate::account::opens_epoch(block_num),
{
    AccountIdAnchor::new(BlockNumber::from(block_num), block_hash)
}

/// The chain `AccountBuilder::new(..).anchor(..).account_type(..).storage_mode(..)
/// .with_component(..).build()`. The builder derives the account from these five values alone.
/// It would panic on an anchor of the epoch 0xffff; `AccountIdAnchor::new` makes none, and
/// `requires` admits only what it made.
#[verifier::external_body]
pub(crate) fn build_account(
    init_seed: [u8; 32],
    anchor: AccountIdAnchor,
    kind: AccountKind,
    mode: StorageMode,
    component: &AccountComponent,
) -> (built: Result<(Account, [Felt; 4]), AccountError>)
    requires
        exists|block_num: u32, block_hash: Digest|
            anchor_of(block_num, block_hash) == Ok::<AccountIdAnchor, AccountIdError>(anchor),
    ensures
        built == built_account(init_seed@, anchor, kind, mode, *component),
{
    let account_type = match kind {
        AccountKind::FungibleFaucet => AccountType::FungibleFaucet,
        AccountKind::NonFungibleFaucet => AccountType::NonFungibleFaucet,
        AccountKind::RegularImmutableCode => AccountType::RegularAccountImmutableCode,
        AccountKind::RegularUpdatableCode => AccountType::RegularAccountUpdatableCode,
    };
    let storage_mode = match mode {
        StorageMode::Public => AccountStorageMode::Public,
        StorageMode::Private => AccountStorageMode::Private,
    };
    AccountBuilder::new(init_seed).anchor(anchor).account_type(account_type).storage_mode(
        storage_mode,
    ).with_component(component.clone()).build()
}

/// `Account::id`, converted to `u128` by the SDK's `From`.
#[verifier::external_body]
pub(crate) fn account_id(account: &Account) -> (id: u128)
    ensures
        id == account_number(*account),
{
    u128::from(account.id())
}

/// `TransactionRequestBuilder::new().with_custom_script(script)`, then `build`: a request that
/// carries the script and nothing else.
#[verifier::external_body]
pub(crate) fn script_request(script: TransactionScript) -> (outcome: Result<
    TransactionRequest,
    TransactionRequestError,
>)
    ensures
        outcome == request_for(script),
{
    TransactionRequestBuilder::new().with_custom_script(script).map(|builder| builder.build())
}

} // verus!
