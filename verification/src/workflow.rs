//! The run of a demo, as steps between the operations that only the client can perform.
//!
//! A run never touches the client, a file or the clock. It says what is to be done next, as an
//! [`Action`], and is told what came of it, as an [`Event`]. Whoever drives it performs the
//! actions in turn. What a run answers is given by [`step`].

use crate::account::{derive_contract, derived, Contract};
use crate::demo::{contract_path_of, procedure_of, script_path_of, Demo};
use crate::exports::{digest_of_export, resolve_export};
use crate::fault::Fault;
use crate::miden::{
    all_types_supported, compile_component, compiled_component, exported_procedures, fresh_seed,
    request_for, script_request, support_all_types,
};
use crate::text::{fill_placeholder, filled, is_digest_hex};
use miden_client::transaction::{TransactionRequest, TransactionRequestError};
use miden_client::{ClientError, Felt};
use miden_objects::account::{Account, AccountComponent};
use miden_objects::transaction::TransactionScript;
use miden_objects::{AccountError, Digest};
use vstd::prelude::*;

verus! {

/// Seconds that a run lets pass between submitting its transaction and reading the account.
pub const SETTLE_SECS: u64 = 3;

/// What the driver is to do next.
#[derive(Debug)]
pub enum Action {
    /// Set up the client.
    Connect,
    /// Bring the client's state up to the node's.
    Sync,
    /// Read the file at `path`.
    ReadFile { path: String },
    /// Fetch the latest block that opens an epoch.
    FetchAnchor,
    /// Make a fresh key, and add the account to the client under it, with this seed.
    /// `overwrite` says whether an account that the client already tracks is to be replaced.
    Register { account: Account, seed: [Felt; 4], overwrite: bool },
    /// Compile `source` as a transaction script with these inputs.
    CompileScript { source: String, inputs: Vec<([Felt; 4], Vec<Felt>)> },
    /// Execute the request against the account.
    Execute { account_id: u128, request: TransactionRequest },
    /// Submit the transaction that was executed.
    Submit,
    /// Wait for `secs` seconds.
    Sleep { secs: u64 },
    /// Fetch the account and show its first storage slot.
    FetchAccount { account_id: u128 },
    /// The run is over and went well.
    Finish,
    /// The run is over: the client failed, and this is its error.
    Fail(ClientError),
    /// The run is over: it cannot go on.
    Abort(Fault),
}

/// What came of the last action.
#[derive(Debug)]
pub enum Event {
    /// The client is set up.
    Connected,
    /// The client's state is that of the node.
    Synced,
    /// The file was read.
    FileRead { contents: String },
    /// The file could not be read.
    FileUnreadable,
    /// The node's latest epoch block.
    AnchorFetched { block_num: u32, block_hash: Digest },
    /// The client holds the account.
    Registered,
    /// The script compiled.
    ScriptCompiled { script: TransactionScript },
    /// The transaction was executed.
    Executed,
    /// The node took the transaction.
    Submitted,
    /// The wait is over.
    Slept,
    /// The client looked for the account.
    AccountFetched { found: bool },
    /// The client failed at the action.
    ClientFailed(ClientError),
}

/// Where a run stands: what it waits for, and what it has to remember until then.
#[derive(Debug)]
pub enum Run {
    /// Waits for the client.
    Connecting { demo: Demo },
    /// Waits for the first sync.
    Syncing { demo: Demo },
    /// Waits for the contract module's source.
    LoadingContract { demo: Demo },
    /// Waits for the anchor block.
    Anchoring { demo: Demo, component: AccountComponent },
    /// Waits for the client to take the account.
    Registering { demo: Demo, component: AccountComponent, account_id: u128 },
    /// Waits for the caller script's source.
    LoadingScript { demo: Demo, account_id: u128, digest: String },
    /// Waits for the script to compile.
    CompilingScript { account_id: u128 },
    /// Waits for the transaction to be executed.
    Executing { account_id: u128 },
    /// Waits for the node's answer to the transaction.
    Submitting { account_id: u128 },
    /// Waits for the settling interval to pass.
    Settling { account_id: u128 },
    /// Waits for the second sync.
    Resyncing { account_id: u128 },
    /// Waits for the account to be read back.
    ReadingBack { account_id: u128 },
    /// Is over.
    Done,
}

/// An [`Action`] with its texts as sequences of characters.
pub enum ActionView {
    Connect,
    Sync,
    ReadFile { path: Seq<char> },
    FetchAnchor,
    Register { account: Account, seed: [Felt; 4], overwrite: bool },
    CompileScript { source: Seq<char>, inputs: Seq<([Felt; 4], Vec<Felt>)> },
    Execute { account_id: u128, request: TransactionRequest },
    Submit,
    Sleep { secs: u64 },
    FetchAccount { account_id: u128 },
    Finish,
    Fail(ClientError),
    Abort(Fault),
}

/// An [`Event`] with its text as a sequence of characters.
pub enum EventView {
    Connected,
    Synced,
    FileRead { contents: Seq<char> },
    FileUnreadable,
    AnchorFetched { block_num: u32, block_hash: Digest },
    Registered,
    ScriptCompiled { script: TransactionScript },
    Executed,
    Submitted,
    Slept,
    AccountFetched { found: bool },
    ClientFailed(ClientError),
}

/// A [`Run`] with its text as a sequence of characters.
pub enum RunView {
    Connecting { demo: Demo },
    Syncing { demo: Demo },
    LoadingContract { demo: Demo },
    Anchoring { demo: Demo, component: AccountComponent },
    Registering { demo: Demo, component: AccountComponent, account_id: u128 },
    LoadingScript { demo: Demo, account_id: u128, digest: Seq<char> },
    CompilingScript { account_id: u128 },
    Executing { account_id: u128 },
    Submitting { account_id: u128 },
    Settling { account_id: u128 },
    Resyncing { account_id: u128 },
    ReadingBack { account_id: u128 },
    Done,
}

impl View for Action {
    type V = ActionView;

    open spec fn view(&self) -> ActionView {
        match *self {
            Action::Connect => ActionView::Connect,
            Action::Sync => ActionView::Sync,
            Action::ReadFile { path } => ActionView::ReadFile { path: path@ },
            Action::FetchAnchor => ActionView::FetchAnchor,
            Action::Register { account, seed, overwrite } => ActionView::Register {
                account,
                seed,
                overwrite,
            },
            Action::CompileScript { source, inputs } => ActionView::CompileScript {
                source: source@,
                inputs: inputs@,
            },
            Action::Execute { account_id, request } => ActionView::Execute { account_id, request },
            Action::Submit => ActionView::Submit,
            Action::Sleep { secs } => ActionView::Sleep { secs },
            Action::FetchAccount { account_id } => ActionView::FetchAccount { account_id },
            Action::Finish => ActionView::Finish,
            Action::Fail(error) => ActionView::Fail(error),
            Action::Abort(fault) => ActionView::Abort(fault),
        }
    }
}

impl View for Event {
    type V = EventView;

    open spec fn view(&self) -> EventView {
        match *self {
            Event::Connected => EventView::Connected,
            Event::Synced => EventView::Synced,
            Event::FileRead { contents } => EventView::FileRead { contents: contents@ },
            Event::FileUnreadable => EventView::FileUnreadable,
            Event::AnchorFetched { block_num, block_hash } => EventView::AnchorFetched {
                block_num,
                block_hash,
            },
            Event::Registered => EventView::Registered,
            Event::ScriptCompiled { script } => EventView::ScriptCompiled { script },
            Event::Executed => EventView::Executed,
            Event::Submitted => EventView::Submitted,
            Event::Slept => EventView::Slept,
            Event::AccountFetched { found } => EventView::AccountFetched { found },
            Event::ClientFailed(error) => EventView::ClientFailed(error),
        }
    }
}

impl View for Run {
    type V = RunView;

    open spec fn view(&self) -> RunView {
        match *self {
            Run::Connecting { demo } => RunView::Connecting { demo },
            Run::Syncing { demo } => RunView::Syncing { demo },
            Run::LoadingContract { demo } => RunView::LoadingContract { demo },
            Run::Anchoring { demo, component } => RunView::Anchoring { demo, component },
            Run::Registering { demo, component, account_id } => RunView::Registering {
                demo,
                component,
                account_id,
            },
            Run::LoadingScript { demo, account_id, digest } => RunView::LoadingScript {
                demo,
                account_id,
                digest: digest@,
            },
            Run::CompilingScript { account_id } => RunView::CompilingScript { account_id },
            Run::Executing { account_id } => RunView::Executing { account_id },
            Run::Submitting { account_id } => RunView::Submitting { account_id },
            Run::Settling { account_id } => RunView::Settling { account_id },
            Run::Resyncing { account_id } => RunView::Resyncing { account_id },
            Run::ReadingBack { account_id } => RunView::ReadingBack { account_id },
            Run::Done => RunView::Done,
        }
    }
}

/// The value that the contract's one storage slot starts with.
pub open spec fn zero_slot() -> Seq<u64> {
    seq![0u64, 0u64, 0u64, 0u64]
}

/// The run ends: it cannot go on.
pub open spec fn halted(fault: Fault) -> (RunView, ActionView) {
    (RunView::Done, ActionView::Abort(fault))
}

/// The run ends: the client failed.
pub open spec fn failed(error: ClientError) -> (RunView, ActionView) {
    (RunView::Done, ActionView::Fail(error))
}

/// How a run goes on once the contract module went through the assembler.
pub open spec fn after_compile(demo: Demo, outcome: Result<AccountComponent, AccountError>) -> (
    RunView,
    ActionView,
) {
    match outcome {
        Ok(component) => (
            RunView::Anchoring { demo, component: all_types_supported(component) },
            ActionView::FetchAnchor,
        ),
        Err(refusal) => halted(Fault::CompileFailed(refusal)),
    }
}

/// How a run goes on once the account was derived.
pub open spec fn after_derive(
    demo: Demo,
    component: AccountComponent,
    outcome: Result<Contract, Fault>,
) -> (RunView, ActionView) {
    match outcome {
        Ok(contract) => (
            RunView::Registering { demo, component, account_id: contract.id },
            ActionView::Register {
                account: contract.account,
                seed: contract.seed,
                overwrite: false,
            },
        ),
        Err(fault) => halted(fault),
    }
}

/// How a run goes on once the procedure was looked up among the exports.
pub open spec fn after_lookup(demo: Demo, account_id: u128, digest: Option<Seq<char>>) -> (
    RunView,
    ActionView,
) {
    match digest {
        Some(digest) => (
            RunView::LoadingScript { demo, account_id, digest },
            ActionView::ReadFile { path: script_path_of(demo) },
        ),
        None => halted(Fault::MissingExport),
    }
}

/// How a run goes on once a request was made of the script.
pub open spec fn after_request(
    account_id: u128,
    outcome: Result<TransactionRequest, TransactionRequestError>,
) -> (RunView, ActionView) {
    match outcome {
        Ok(request) => (
            RunView::Executing { account_id },
            ActionView::Execute { account_id, request },
        ),
        Err(refusal) => halted(Fault::RequestRejected(refusal)),
    }
}

/// What a run answers to an event: where it stands afterwards, and what is to be done next.
/// `seed` is the entropy that the step may draw on; only the step that derives the account
/// does.
///
/// A failure of the client ends the run with the client's error, but for the one at
/// submitting, which is passed over. An event that the run does not wait for ends it.
pub open spec fn step(run: RunView, event: EventView, seed: Seq<u8>) -> (RunView, ActionView) {
    match (run, event) {
        (RunView::Connecting { demo }, EventView::Connected) => (
            RunView::Syncing { demo },
            ActionView::Sync,
        ),
        (RunView::Connecting { .. }, EventView::ClientFailed(error)) => failed(error),
        (RunView::Syncing { demo }, EventView::Synced) => (
            RunView::LoadingContract { demo },
            ActionView::ReadFile { path: contract_path_of(demo) },
        ),
        (RunView::Syncing { .. }, EventView::ClientFailed(error)) => failed(error),
        (RunView::LoadingContract { demo }, EventView::FileRead { contents }) => after_compile(
            demo,
            compiled_component(contents, true, zero_slot()),
        ),
        (RunView::LoadingContract { .. }, EventView::FileUnreadable) => halted(
            Fault::FileUnreadable,
        ),
        (
            RunView::Anchoring { demo, component },
            EventView::AnchorFetched { block_num, block_hash },
        ) => after_derive(demo, component, derived(seed, block_num, block_hash, component)),
        (RunView::Anchoring { .. }, EventView::ClientFailed(error)) => failed(error),
        (RunView::Registering { demo, component, account_id }, EventView::Registered) => {
            after_lookup(
                demo,
                account_id,
                digest_of_export(exported_procedures(component), procedure_of(demo)),
            )
        },
        (RunView::Registering { .. }, EventView::ClientFailed(error)) => failed(error),
        (RunView::LoadingScript { demo, account_id, digest }, EventView::FileRead { contents }) => (
            RunView::CompilingScript { account_id },
            ActionView::CompileScript {
                source: filled(contents, procedure_of(demo), digest),
                inputs: Seq::empty(),
            },
        ),
        (RunView::LoadingScript { .. }, EventView::FileUnreadable) => halted(
            Fault::FileUnreadable,
        ),
        (RunView::CompilingScript { account_id }, EventView::ScriptCompiled { script }) => {
            after_request(account_id, request_for(script))
        },
        (RunView::CompilingScript { .. }, EventView::ClientFailed(error)) => failed(error),
        (RunView::Executing { account_id }, EventView::Executed) => (
            RunView::Submitting { account_id },
            ActionView::Submit,
        ),
        (RunView::Executing { .. }, EventView::ClientFailed(error)) => failed(error),
        (RunView::Submitting { account_id }, EventView::Submitted) => (
            RunView::Settling { account_id },
            ActionView::Sleep { secs: SETTLE_SECS },
        ),
        (RunView::Submitting { account_id }, EventView::ClientFailed(_)) => (
            RunView::Settling { account_id },
            ActionView::Sleep { secs: SETTLE_SECS },
        ),
        (RunView::Settling { account_id }, EventView::Slept) => (
            RunView::Resyncing { account_id },
            ActionView::Sync,
        ),
        (RunView::Resyncing { account_id }, EventView::Synced) => (
            RunView::ReadingBack { account_id },
            ActionView::FetchAccount { account_id },
        ),
        (RunView::Resyncing { .. }, EventView::ClientFailed(error)) => failed(error),
        (RunView::ReadingBack { .. }, EventView::AccountFetched { found }) => if found {
            (RunView::Done, ActionView::Finish)
        } else {
            halted(Fault::AccountUnknown)
        },
        (RunView::ReadingBack { .. }, EventView::ClientFailed(error)) => failed(error),
        _ => halted(Fault::OutOfTurn),
    }
}

/// What holds of every run that was reached by steps: a digest that it remembers has the shape
/// in which the SDK writes digests.
pub open spec fn well_formed(run: RunView) -> bool {
    run matches RunView::LoadingScript { digest, .. } ==> is_digest_hex(digest)
}

/// Begins a run of `demo`: the client is to be set up first.
pub fn start(demo: Demo) -> (out: (Run, Action))
    ensures
        out.0@ == (RunView::Connecting { demo }),
        out.1@ == ActionView::Connect,
{
    (Run::Connecting { demo }, Action::Connect)
}

/// Begins a run of the demo that adds two 256-bit numbers.
pub fn add_u256() -> (out: (Run, Action))
    ensures
        out.0@ == (RunView::Connecting { demo: Demo::AddU256 }),
        out.1@ == ActionView::Connect,
{
    start(Demo::AddU256)
}

/// Begins a run of the demo that verifies a Schnorr signature.
pub fn verify_schnorr() -> (out: (Run, Action))
    ensures
        out.0@ == (RunView::Connecting { demo: Demo::Schnorr }),
        out.1@ == ActionView::Connect,
{
    start(Demo::Schnorr)
}

/// Goes on once the contract module went through the assembler: with a component that
/// supports every account type the anchor is fetched, a refusal ends the run.
pub fn contract_compiled(demo: Demo, outcome: Result<AccountComponent, AccountError>) -> (out: (
    Run,
    Action,
))
    ensures
        (out.0@, out.1@) == after_compile(demo, outcome),
{
    match outcome {
        Ok(component) => (
            Run::Anchoring { demo, component: support_all_types(component) },
            Action::FetchAnchor,
        ),
        Err(refusal) => (Run::Done, Action::Abort(Fault::CompileFailed(refusal))),
    }
}

/// Goes on once the account was derived: the client is to take it as a new account, and the
/// run keeps its identifier from here on.
pub fn contract_derived(demo: Demo, component: AccountComponent, outcome: Result<Contract, Fault>)
    -> (out: (Run, Action))
    ensures
        (out.0@, out.1@) == after_derive(demo, component, outcome),
{
    match outcome {
        Ok(contract) => (
            Run::Registering { demo, component, account_id: contract.id },
            Action::Register { account: contract.account, seed: contract.seed, overwrite: false },
        ),
        Err(fault) => (Run::Done, Action::Abort(fault)),
    }
}

/// Goes on once the procedure was looked up: with its digest the caller script is read, without
/// one the run ends.
pub fn procedure_resolved(demo: Demo, account_id: u128, digest: Option<String>) -> (out: (
    Run,
    Action,
))
    ensures
        (out.0@, out.1@) == after_lookup(
            demo,
            account_id,
            match digest {
                Some(digest) => Some(digest@),
                None => None,
            },
        ),
{
    match digest {
        Some(digest) => (
            Run::LoadingScript { demo, account_id, digest },
            Action::ReadFile { path: demo.script_path() },
        ),
        None => (Run::Done, Action::Abort(Fault::MissingExport)),
    }
}

/// Goes on once a request was made of the script: it is executed against the account of this
/// run.
pub fn request_made(
    account_id: u128,
    outcome: Result<TransactionRequest, TransactionRequestError>,
) -> (out: (Run, Action))
    ensures
        (out.0@, out.1@) == after_request(account_id, outcome),
{
    match outcome {
        Ok(request) => (Run::Executing { account_id }, Action::Execute { account_id, request }),
        Err(refusal) => (Run::Done, Action::Abort(Fault::RequestRejected(refusal))),
    }
}

impl Run {
    /// Whether the next step may draw a seed: only the one that derives the account does.
    pub fn draws_seed(&self, event: &Event) -> (draws: bool)
        ensures
            draws == (self@ is Anchoring && event@ is AnchorFetched),
    {
        match (self, event) {
            (Run::Anchoring { .. }, Event::AnchorFetched { .. }) => true,
            _ => false,
        }
    }

    /// Answers an event, with `seed` as the entropy for the account.
    pub fn advance_with(self, event: Event, seed: [u8; 32]) -> (out: (Run, Action))
        ensures
            (out.0@, out.1@) == step(self@, event@, seed@),
            well_formed(out.0@),
            (self@ is Anchoring && event@ is AnchorFetched) ==> (out.1@ matches ActionView::Abort(
                Fault::MalformedAnchor(_),
            ) <==> !crate::account::opens_epoch(event@->block_num)),
    {
        match (self, event) {
            (Run::Connecting { demo }, Event::Connected) => (Run::Syncing { demo }, Action::Sync),
            (Run::Connecting { .. }, Event::ClientFailed(error)) => (
                Run::Done,
                Action::Fail(error),
            ),
            (Run::Syncing { demo }, Event::Synced) => (
                Run::LoadingContract { demo },
                Action::ReadFile { path: demo.contract_path() },
            ),
            (Run::Syncing { .. }, Event::ClientFailed(error)) => (Run::Done, Action::Fail(error)),
            (Run::LoadingContract { demo }, Event::FileRead { contents }) => {
                let slot: [u64; 4] = [0, 0, 0, 0];
                assert(slot@ =~= zero_slot());
                contract_compiled(demo, compile_component(contents.as_str(), true, slot))
            },
            (Run::LoadingContract { .. }, Event::FileUnreadable) => (
                Run::Done,
                Action::Abort(Fault::FileUnreadable),
            ),
            (Run::Anchoring { demo, component }, Event::AnchorFetched { block_num, block_hash }) => {
                let outcome = derive_contract(seed, block_num, block_hash, &component);
                contract_derived(demo, component, outcome)
            },
            (Run::Anchoring { .. }, Event::ClientFailed(error)) => (Run::Done, Action::Fail(error)),
            (Run::Registering { demo, component, account_id }, Event::Registered) => {
                let digest = resolve_export(&component, demo.procedure());
                procedure_resolved(demo, account_id, digest)
            },
            (Run::Registering { .. }, Event::ClientFailed(error)) => (
                Run::Done,
                Action::Fail(error),
            ),
            (Run::LoadingScript { demo, account_id, digest }, Event::FileRead { contents }) => (
                Run::CompilingScript { account_id },
                Action::CompileScript {
                    source: fill_placeholder(contents.as_str(), demo.procedure(), digest.as_str()),
                    inputs: Vec::new(),
                },
            ),
            (Run::LoadingScript { .. }, Event::FileUnreadable) => (
                Run::Done,
                Action::Abort(Fault::FileUnreadable),
            ),
            (Run::CompilingScript { account_id }, Event::ScriptCompiled { script }) => {
                request_made(account_id, script_request(script))
            },
            (Run::CompilingScript { .. }, Event::ClientFailed(error)) => (
                Run::Done,
                Action::Fail(error),
            ),
            (Run::Executing { account_id }, Event::Executed) => (
                Run::Submitting { account_id },
                Action::Submit,
            ),
            (Run::Executing { .. }, Event::ClientFailed(error)) => (Run::Done, Action::Fail(error)),
            (Run::Submitting { account_id }, Event::Submitted) => (
                Run::Settling { account_id },
                Action::Sleep { secs: SETTLE_SECS },
            ),
            (Run::Submitting { account_id }, Event::ClientFailed(_)) => (
                Run::Settling { account_id },
                Action::Sleep { secs: SETTLE_SECS },
            ),
            (Run::Settling { account_id }, Event::Slept) => (
                Run::Resyncing { account_id },
                Action::Sync,
            ),
            (Run::Resyncing { account_id }, Event::Synced) => (
                Run::ReadingBack { account_id },
                Action::FetchAccount { account_id },
            ),
            (Run::Resyncing { .. }, Event::ClientFailed(error)) => (Run::Done, Action::Fail(error)),
            (Run::ReadingBack { .. }, Event::AccountFetched { found }) => if found {
                (Run::Done, Action::Finish)
            } else {
                (Run::Done, Action::Abort(Fault::AccountUnknown))
            },
            (Run::ReadingBack { .. }, Event::ClientFailed(error)) => (
                Run::Done,
                Action::Fail(error),
            ),
            _ => (Run::Done, Action::Abort(Fault::OutOfTurn)),
        }
    }

    /// Answers an event. Where the step derives the account, it draws the seed afresh; what it
    /// answers is what [`step`] gives for some seed of 32 bytes.
    pub fn advance(self, event: Event) -> (out: (Run, Action))
        ensures
            exists|seed: Seq<u8>|
                seed.len() == 32 && (out.0@, out.1@) == #[trigger] step(self@, event@, seed),
            well_formed(out.0@),
            (self@ is Anchoring && event@ is AnchorFetched) ==> (out.1@ matches ActionView::Abort(
                Fault::MalformedAnchor(_),
            ) <==> !crate::account::opens_epoch(event@->block_num)),
    {
        let seed: [u8; 32] = if self.draws_seed(&event) {
            fresh_seed()
        } else {
            [0; 32]
        };
        let out = self.advance_with(event, seed);
        assert(seed@.len() == 32);
        out
    }
}

} // verus!
