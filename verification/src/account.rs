//! Deriving the contract's account from a seed, an anchor block and a component.

use crate::fault::Fault;
use crate::miden::{account_id, account_number, anchor_of, build_account, built_account, id_anchor};
use miden_client::Felt;
use miden_objects::account::{Account, AccountComponent};
use miden_objects::Digest;
use vstd::prelude::*;

verus! {

/// What an account is allowed to do with its code and assets.
#[derive(Clone, Copy, Debug, PartialEq, Eq, Structural)]
pub enum AccountKind {
    FungibleFaucet,
    NonFungibleFaucet,
    RegularImmutableCode,
    RegularUpdatableCode,
}

/// Whether an account's state is kept on chain in full or only as a commitment.
#[derive(Clone, Copy, Debug, PartialEq, Eq, Structural)]
pub enum StorageMode {
    Public,
    Private,
}

/// A contract's account as it was built: the account, the seed that its identifier was ground
/// from, and the identifier as a number.
#[derive(Debug)]
pub struct Contract {
    pub account: Account,
    pub seed: [Felt; 4],
    pub id: u128,
}

/// Whether the block with this number opens an epoch that an account may be anchored to: its
/// low 16 bits are zero and its epoch, the high 16 bits, is not the last one.
pub open spec fn opens_epoch(block_num: u32) -> bool {
    block_num % 0x1_0000 == 0 && block_num / 0x1_0000 != 0xffff
}

/// The contract that a seed, an anchor block and a component give: a regular account with
/// immutable code and public storage, or the reason why there is none.
pub open spec fn derived(
    init_seed: Seq<u8>,
    block_num: u32,
    block_hash: Digest,
    component: AccountComponent,
) -> Result<Contract, Fault> {
    match anchor_of(block_num, block_hash) {
        Err(refusal) => Err(Fault::MalformedAnchor(refusal)),
        Ok(anchor) => match built_account(
            init_seed,
            anchor,
            AccountKind::RegularImmutableCode,
            StorageMode::Public,
            component,
        ) {
            Err(refusal) => Err(Fault::BuildFailed(refusal)),
            Ok((account, seed)) => Ok(Contract { account, seed, id: account_number(account) }),
        },
    }
}

/// Builds the contract's account. The outcome is settled by the seed, the anchor block and the
/// component; the anchor is refused exactly when its block does not open an epoch.
pub fn derive_contract(
    init_seed: [u8; 32],
    block_num: u32,
    block_hash: Digest,
    component: &AccountComponent,
) -> (outcome: Result<Contract, Fault>)
    ensures
        outcome == derived(init_seed@, block_num, block_hash, *component),
        outcome matches Err(Fault::MalformedAnchor(_)) <==> !opens_epoch(block_num),
        outcome matches Ok(contract) ==> contract.id == account_number(contract.account),
{
    match id_anchor(block_num, block_hash) {
        Err(refusal) => Err(Fault::MalformedAnchor(refusal)),
        Ok(anchor) => {
            match build_account(
                init_seed,
                anchor,
                AccountKind::RegularImmutableCode,
                StorageMode::Public,
                component,
            ) {
                Err(refusal) => Err(Fault::BuildFailed(refusal)),
                Ok((account, seed)) => {
                    let id = account_id(&account);
                    Ok(Contract { account, seed, id })
                },
            }
        },
    }
}

} // verus!
