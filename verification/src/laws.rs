//! What holds of every run, proved from [`step`].

use crate::account::{AccountKind, StorageMode};
use crate::demo::{lemma_procedure_is_short, procedure_of, Demo};
use crate::exports::{digest_of_export, holds_name, lemma_digest_iff_exported, names_of};
use crate::fault::Fault;
use crate::miden::{
    account_number, all_types_supported, anchor_of, built_account, compiled_component,
    exported_procedures,
};
use crate::text::{
    contains_text, filled, lemma_digest_has_no_brace, lemma_filled_holds_digest,
    lemma_filled_holds_no_placeholder, placeholder,
};
use crate::workflow::{step, well_formed, zero_slot, ActionView, EventView, RunView};
use miden_client::ClientError;
use miden_objects::account::AccountComponent;
use miden_objects::Digest;
use vstd::prelude::*;

verus! {

/// The account that a run works on, once it has one.
pub open spec fn account_of(run: RunView) -> Option<u128> {
    match run {
        RunView::Registering { account_id, .. } => Some(account_id),
        RunView::LoadingScript { account_id, .. } => Some(account_id),
        RunView::CompilingScript { account_id } => Some(account_id),
        RunView::Executing { account_id } => Some(account_id),
        RunView::Submitting { account_id } => Some(account_id),
        RunView::Settling { account_id } => Some(account_id),
        RunView::Resyncing { account_id } => Some(account_id),
        RunView::ReadingBack { account_id } => Some(account_id),
        _ => None,
    }
}

/// How far a run has come.
pub open spec fn stage_of(run: RunView) -> nat {
    match run {
        RunView::Connecting { .. } => 0,
        RunView::Syncing { .. } => 1,
        RunView::LoadingContract { .. } => 2,
        RunView::Anchoring { .. } => 3,
        RunView::Registering { .. } => 4,
        RunView::LoadingScript { .. } => 5,
        RunView::CompilingScript { .. } => 6,
        RunView::Executing { .. } => 7,
        RunView::Submitting { .. } => 8,
        RunView::Settling { .. } => 9,
        RunView::Resyncing { .. } => 10,
        RunView::ReadingBack { .. } => 11,
        RunView::Done => 12,
    }
}

/// Whether an action makes, executes or submits a transaction.
pub open spec fn builds_transaction(action: ActionView) -> bool {
    action is CompileScript || action is Execute || action is Submit
}

/// Where the run of `demo` stands once it has answered the first `n` of these events, each with
/// the seed beside it.
pub open spec fn run_after(demo: Demo, inputs: Seq<(EventView, Seq<u8>)>, n: nat) -> RunView
    decreases n,
{
    if n == 0 {
        RunView::Connecting { demo }
    } else {
        step(run_after(demo, inputs, (n - 1) as nat), inputs[n - 1].0, inputs[n - 1].1).0
    }
}

/// What the run of `demo` answers to the event at position `n`.
pub open spec fn action_at(demo: Demo, inputs: Seq<(EventView, Seq<u8>)>, n: nat) -> ActionView {
    step(run_after(demo, inputs, n), inputs[n as int].0, inputs[n as int].1).1
}

/// One step keeps the account of a run, acts on no other, and moves the run forward.
pub proof fn lemma_step_keeps_account(run: RunView, event: EventView, seed: Seq<u8>)
    ensures
        ({
            let (next, action) = step(run, event, seed);
            &&& account_of(run) matches Some(id) ==> next is Done || account_of(next) == Some(id)
            &&& action matches ActionView::Register { account, .. } ==> account_of(next) == Some(
                account_number(account),
            )
            &&& action matches ActionView::Execute { account_id, .. } ==> account_of(run) == Some(
                account_id,
            )
            &&& action matches ActionView::FetchAccount { account_id } ==> account_of(run) == Some(
                account_id,
            )
            &&& stage_of(run) <= stage_of(next)
            &&& builds_transaction(action) ==> stage_of(run) >= 5
            &&& run is Done ==> action == ActionView::Abort(Fault::OutOfTurn)
        }),
{
}

/// The account that a step registers is derived from the seed, the anchor block and the
/// component, and from nothing else that the run holds; the run keeps its identifier.
pub proof fn lemma_identity_is_settled(
    demo: Demo,
    component: AccountComponent,
    block_num: u32,
    block_hash: Digest,
    seed: Seq<u8>,
)
    ensures
        ({
            let (next, action) = step(
                RunView::Anchoring { demo, component },
                EventView::AnchorFetched { block_num, block_hash },
                seed,
            );
            action matches ActionView::Register { account, seed: ground, overwrite } ==> {
                &&& !overwrite
                &&& anchor_of(block_num, block_hash) matches Ok(anchor) && built_account(
                    seed,
                    anchor,
                    AccountKind::RegularImmutableCode,
                    StorageMode::Public,
                    component,
                ) == Ok::<_, miden_objects::AccountError>((account, ground))
                &&& next == (RunView::Registering {
                    demo,
                    component,
                    account_id: account_number(account),
                })
            }
        }),
{
}

/// The digest that a run remembers for its script is that of the first export that goes by the
/// procedure's name.
pub proof fn lemma_digest_is_of_export(
    demo: Demo,
    component: AccountComponent,
    account_id: u128,
    seed: Seq<u8>,
)
    ensures
        ({
            let (next, action) = step(
                RunView::Registering { demo, component, account_id },
                EventView::Registered,
                seed,
            );
            let found = digest_of_export(exported_procedures(component), procedure_of(demo));
            &&& next matches RunView::LoadingScript { digest, .. } ==> found == Some(digest)
            &&& found is None ==> next is Done && action == ActionView::Abort(Fault::MissingExport)
        }),
{
}

/// The script that is handed on for compiling is the caller script with the digest in place of
/// the placeholder: no placeholder is left in it, and where the caller script held one, it
/// holds the digest.
pub proof fn lemma_script_holds_digest(
    demo: Demo,
    account_id: u128,
    digest: Seq<char>,
    script: Seq<char>,
    seed: Seq<u8>,
)
    requires
        well_formed(RunView::LoadingScript { demo, account_id, digest }),
    ensures
        ({
            let (next, action) = step(
                RunView::LoadingScript { demo, account_id, digest },
                EventView::FileRead { contents: script },
                seed,
            );
            let token = placeholder(procedure_of(demo));
            &&& action is CompileScript
            &&& action->source == filled(script, procedure_of(demo), digest)
            &&& action->inputs.len() == 0
            &&& !contains_text(action->source, token)
            &&& contains_text(script, token) ==> contains_text(action->source, digest)
        }),
{
    lemma_procedure_is_short(demo);
    lemma_digest_has_no_brace(digest);
    lemma_filled_holds_no_placeholder(script, procedure_of(demo), digest);
    if contains_text(script, placeholder(procedure_of(demo))) {
        lemma_filled_holds_digest(script, procedure_of(demo), digest);
    }
}

/// From its beginning to the script: where a run hands a script on for compiling, the contract
/// module compiled, in debug mode and with a slot of four zeros; the component, once it
/// supports every account type, exports the procedure; the script is the caller script with
/// that export's digest in it; and the run works on the account that it had registered.
pub proof fn lemma_script_of_a_run(
    demo: Demo,
    contract: Seq<char>,
    block_num: u32,
    block_hash: Digest,
    script: Seq<char>,
    seed: Seq<u8>,
)
    ensures
        ({
            let (connected, _) = step(RunView::Connecting { demo }, EventView::Connected, seed);
            let (synced, _) = step(connected, EventView::Synced, seed);
            let (compiled, _) = step(synced, EventView::FileRead { contents: contract }, seed);
            let (derived, register) = step(
                compiled,
                EventView::AnchorFetched { block_num, block_hash },
                seed,
            );
            let (resolved, _) = step(derived, EventView::Registered, seed);
            let (filling, compile) = step(resolved, EventView::FileRead { contents: script }, seed);
            compile matches ActionView::CompileScript { source, .. } ==> {
                &&& compiled_component(contract, true, zero_slot()) matches Ok(component)
                    && digest_of_export(
                    exported_procedures(all_types_supported(component)),
                    procedure_of(demo),
                ) matches Some(digest) && source == filled(script, procedure_of(demo), digest)
                &&& register matches ActionView::Register { account, .. } && filling == (
                    RunView::CompilingScript { account_id: account_number(account) })
            }
        }),
{
}

/// Whether the submission is taken or refused, the run waits, syncs again and reads the
/// account back.
pub proof fn lemma_readback_follows_submission(
    account_id: u128,
    error: ClientError,
    first: Seq<u8>,
    second: Seq<u8>,
    third: Seq<u8>,
)
    ensures
        ({
            let submitting = RunView::Submitting { account_id };
            let (settling, wait) = step(submitting, EventView::ClientFailed(error), first);
            let (resyncing, sync) = step(settling, EventView::Slept, second);
            let (reading, fetch) = step(resyncing, EventView::Synced, third);
            &&& (settling, wait) == step(submitting, EventView::Submitted, first)
            &&& wait == ActionView::Sleep { secs: 3 }
            &&& sync == ActionView::Sync
            &&& fetch == ActionView::FetchAccount { account_id }
        }),
{
}

/// Once an account was registered, the run is over or works on that account.
proof fn lemma_account_persists(demo: Demo, inputs: Seq<(EventView, Seq<u8>)>, i: nat, k: nat)
    requires
        i < k <= inputs.len(),
        action_at(demo, inputs, i) is Register,
    ensures
        run_after(demo, inputs, k) is Done || account_of(run_after(demo, inputs, k)) == Some(
            account_number(action_at(demo, inputs, i)->account),
        ),
    decreases k,
{
    let before = run_after(demo, inputs, (k - 1) as nat);
    lemma_step_keeps_account(before, inputs[k - 1].0, inputs[k - 1].1);
    if k > i + 1 {
        lemma_account_persists(demo, inputs, i, (k - 1) as nat);
    }
}

/// A run never falls back.
proof fn lemma_stage_never_falls(demo: Demo, inputs: Seq<(EventView, Seq<u8>)>, j: nat, k: nat)
    requires
        j <= k <= inputs.len(),
    ensures
        stage_of(run_after(demo, inputs, j)) <= stage_of(run_after(demo, inputs, k)),
    decreases k,
{
    if j < k {
        let before = run_after(demo, inputs, (k - 1) as nat);
        lemma_step_keeps_account(before, inputs[k - 1].0, inputs[k - 1].1);
        lemma_stage_never_falls(demo, inputs, j, (k - 1) as nat);
    }
}

/// In every run, the transaction is executed against the account that the same run
/// registered, and that account is the one read back.
pub proof fn lemma_executes_on_registered_account(
    demo: Demo,
    inputs: Seq<(EventView, Seq<u8>)>,
    i: nat,
    j: nat,
)
    requires
        i < j < inputs.len(),
    ensures
        action_at(demo, inputs, i) matches ActionView::Register { account, .. } ==> {
            &&& action_at(demo, inputs, j) matches ActionView::Execute { account_id, .. }
                ==> account_id == account_number(account)
            &&& action_at(demo, inputs, j) matches ActionView::FetchAccount { account_id }
                ==> account_id == account_number(account)
        },
{
    if action_at(demo, inputs, i) is Register {
        lemma_account_persists(demo, inputs, i, j);
        lemma_step_keeps_account(run_after(demo, inputs, j), inputs[j as int].0, inputs[j as int].1);
    }
}

/// In a run whose contract does not export the procedure, the lookup ends the run, and no
/// step of it, before or after, makes, executes or submits a transaction.
pub proof fn lemma_no_transaction_without_export(
    demo: Demo,
    inputs: Seq<(EventView, Seq<u8>)>,
    i: nat,
    j: nat,
)
    requires
        i < inputs.len(),
        j < inputs.len(),
        inputs[i as int].0 is Registered,
        run_after(demo, inputs, i) matches RunView::Registering { demo: running, component, .. }
            && !holds_name(names_of(exported_procedures(component)), procedure_of(running)),
    ensures
        action_at(demo, inputs, i) == ActionView::Abort(Fault::MissingExport),
        !builds_transaction(action_at(demo, inputs, j)),
{
    let at_lookup = run_after(demo, inputs, i);
    lemma_digest_iff_exported(
        exported_procedures(at_lookup->Registering_component),
        procedure_of(at_lookup->Registering_demo),
    );
    let at_j = run_after(demo, inputs, j);
    lemma_step_keeps_account(at_j, inputs[j as int].0, inputs[j as int].1);
    if j <= i {
        lemma_stage_never_falls(demo, inputs, j, i);
    } else {
        assert(run_after(demo, inputs, i + 1) is Done);
        lemma_stage_never_falls(demo, inputs, i + 1, j);
    }
}

} // verus!
