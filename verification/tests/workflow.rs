use contract_lifecycle::demo::Demo;
use contract_lifecycle::fault::Fault;
use contract_lifecycle::workflow::{
    add_u256, contract_compiled, contract_derived, procedure_resolved, request_made, start,
    verify_schnorr, Action, Event, Run, SETTLE_SECS,
};
use miden_client::account::{AccountStorageMode, AccountType};
use miden_client::transaction::{
    TransactionKernel, TransactionRequestBuilder, TransactionScriptTemplate,
};
use miden_client::{ClientError, Felt};
use miden_objects::account::{Account, AccountComponent, StorageSlot};
use miden_objects::transaction::TransactionScript;
use miden_objects::{AccountError, Digest};

const SEED: [u8; 32] = [7; 32];
const EPOCH_BLOCK: u32 = 0x0003_0000;

const ADD_CONTRACT: &str = "
export.add_u256
    push.1 add
end
";

const SCHNORR_CONTRACT: &str = "
export.helper
    push.5 add
end

export.verify_schnorr
    push.2 mul
end
";

const ADD_SCRIPT: &str = "begin\n    call.{add_u256}\nend\n";
const SCHNORR_SCRIPT: &str = "begin\n    push.3\n    call.{verify_schnorr}\n    drop\nend\n";

fn component(source: &str) -> AccountComponent {
    let assembler = TransactionKernel::assembler().with_debug_mode(true);
    let zero = [Felt::new(0), Felt::new(0), Felt::new(0), Felt::new(0)];
    AccountComponent::compile(source, assembler, vec![StorageSlot::Value(zero)]).unwrap()
}

fn digest_by_sdk(source: &str, name: &str) -> String {
    let component = component(source);
    let library = component.library();
    let export = library.exports().find(|export| export.name.as_str() == name).unwrap();
    let node = library.get_export_node_id(export);
    library.mast_forest().get_node_by_id(node).unwrap().digest().to_hex()
}

fn script(source: &str) -> TransactionScript {
    let assembler = TransactionKernel::assembler().with_debug_mode(true);
    TransactionScript::compile(source, vec![], assembler).unwrap()
}

fn anchor() -> Event {
    Event::AnchorFetched { block_num: EPOCH_BLOCK, block_hash: Digest::default() }
}

fn read(contents: &str) -> Event {
    Event::FileRead { contents: contents.to_string() }
}

fn client_failure() -> Event {
    Event::ClientFailed(ClientError::AddNewAccountWithoutSeed)
}

/// Follows a run up to the point at which the client holds the account.
fn registered(demo: Demo, contract: &str) -> (Run, Account) {
    let (run, _) = start(demo);
    let (run, _) = run.advance_with(Event::Connected, SEED);
    let (run, _) = run.advance_with(Event::Synced, SEED);
    let (run, _) = run.advance_with(read(contract), SEED);
    let (run, action) = run.advance_with(anchor(), SEED);
    match action {
        Action::Register { account, .. } => (run, account),
        other => panic!("no account to register: {:?}", other),
    }
}

/// Follows a run up to the point at which its transaction is to be executed.
fn executing(demo: Demo, contract: &str, caller: &str) -> (Run, u128) {
    let (run, account) = registered(demo, contract);
    let (run, _) = run.advance_with(Event::Registered, SEED);
    let (run, action) = run.advance_with(read(caller), SEED);
    let source = match action {
        Action::CompileScript { source, inputs } => {
            assert!(inputs.is_empty());
            source
        }
        other => panic!("no script to compile: {:?}", other),
    };
    let (run, action) = run.advance_with(Event::ScriptCompiled { script: script(&source) }, SEED);
    assert!(matches!(action, Action::Execute { .. }));
    (run, u128::from(account.id()))
}

#[test]
fn a_run_begins_by_connecting() {
    let (run, action) = start(Demo::Schnorr);
    assert!(matches!(run, Run::Connecting { demo: Demo::Schnorr }));
    assert!(matches!(action, Action::Connect));
    let (run, action) = add_u256();
    assert!(matches!(run, Run::Connecting { demo: Demo::AddU256 }));
    assert!(matches!(action, Action::Connect));
    let (run, action) = verify_schnorr();
    assert!(matches!(run, Run::Connecting { demo: Demo::Schnorr }));
    assert!(matches!(action, Action::Connect));
}

#[test]
fn happy_path_add_u256() {
    let (run, action) = add_u256();
    assert!(matches!(action, Action::Connect));

    let (run, action) = run.advance(Event::Connected);
    assert!(matches!(action, Action::Sync));
    assert!(matches!(run, Run::Syncing { demo: Demo::AddU256 }));

    let (run, action) = run.advance(Event::Synced);
    match action {
        Action::ReadFile { path } => assert_eq!(path, "./masm/accounts/add_u256.masm"),
        other => panic!("unexpected action {:?}", other),
    }

    let (run, action) = run.advance(read(ADD_CONTRACT));
    assert!(matches!(action, Action::FetchAnchor));
    match &run {
        Run::Anchoring { demo, component } => {
            assert_eq!(*demo, Demo::AddU256);
            assert_eq!(component.storage_slots().len(), 1);
            assert_eq!(component.storage_slots()[0], StorageSlot::Value([Felt::new(0); 4]));
            for kind in [
                AccountType::FungibleFaucet,
                AccountType::NonFungibleFaucet,
                AccountType::RegularAccountImmutableCode,
                AccountType::RegularAccountUpdatableCode,
            ] {
                assert!(component.supports_type(kind));
            }
            assert_eq!(component.library(), self::component(ADD_CONTRACT).library());
        }
        other => panic!("unexpected run {:?}", other),
    }

    let (run, action) = run.advance(anchor());
    let account = match action {
        Action::Register { account, seed: _, overwrite } => {
            assert!(!overwrite);
            account
        }
        other => panic!("unexpected action {:?}", other),
    };
    assert_eq!(account.id().account_type(), AccountType::RegularAccountImmutableCode);
    assert_eq!(account.id().storage_mode(), AccountStorageMode::Public);
    assert_eq!(account.storage().get_item(0).unwrap(), Digest::default());
    let id = u128::from(account.id());
    assert!(matches!(run, Run::Registering { account_id, .. } if account_id == id));

    let (run, action) = run.advance(Event::Registered);
    match action {
        Action::ReadFile { path } => assert_eq!(path, "./masm/scripts/add_u256_script.masm"),
        other => panic!("unexpected action {:?}", other),
    }
    let digest = digest_by_sdk(ADD_CONTRACT, "add_u256");
    match &run {
        Run::LoadingScript { digest: kept, account_id, .. } => {
            assert_eq!(*kept, digest);
            assert_eq!(*account_id, id);
        }
        other => panic!("unexpected run {:?}", other),
    }

    let (run, action) = run.advance(read(ADD_SCRIPT));
    let source = match action {
        Action::CompileScript { source, inputs } => {
            assert!(inputs.is_empty());
            source
        }
        other => panic!("unexpected action {:?}", other),
    };
    assert_eq!(source, format!("begin\n    call.{}\nend\n", digest));
    assert!(source.contains(&digest));
    assert!(!source.contains("{add_u256}"));

    let compiled = script(&source);
    let (run, action) = run.advance(Event::ScriptCompiled { script: compiled.clone() });
    match action {
        Action::Execute { account_id, request } => {
            assert_eq!(account_id, id);
            assert_eq!(
                request.script_template(),
                &Some(TransactionScriptTemplate::CustomScript(compiled))
            );
            assert!(request.input_notes().is_empty());
            assert_eq!(request.expected_output_notes().count(), 0);
            assert!(request.foreign_accounts().is_empty());
        }
        other => panic!("unexpected action {:?}", other),
    }

    let (run, action) = run.advance(Event::Executed);
    assert!(matches!(action, Action::Submit));

    let (run, action) = run.advance(Event::Submitted);
    assert!(matches!(action, Action::Sleep { secs: 3 }));

    let (run, action) = run.advance(Event::Slept);
    assert!(matches!(action, Action::Sync));

    let (run, action) = run.advance(Event::Synced);
    assert!(matches!(action, Action::FetchAccount { account_id } if account_id == id));

    let (run, action) = run.advance(Event::AccountFetched { found: true });
    assert!(matches!(action, Action::Finish));
    assert!(matches!(run, Run::Done));
}

#[test]
fn happy_path_schnorr() {
    let (run, account) = registered(Demo::Schnorr, SCHNORR_CONTRACT);
    let id = u128::from(account.id());

    let (run, action) = run.advance_with(Event::Registered, SEED);
    match action {
        Action::ReadFile { path } => assert_eq!(path, "./masm/scripts/schnorr_script.masm"),
        other => panic!("unexpected action {:?}", other),
    }

    let (run, action) = run.advance_with(read(SCHNORR_SCRIPT), SEED);
    let source = match action {
        Action::CompileScript { source, inputs } => {
            assert!(inputs.is_empty());
            source
        }
        other => panic!("unexpected action {:?}", other),
    };
    let digest = digest_by_sdk(SCHNORR_CONTRACT, "verify_schnorr");
    assert_eq!(source, SCHNORR_SCRIPT.replace("{verify_schnorr}", &digest));
    assert_ne!(digest, digest_by_sdk(SCHNORR_CONTRACT, "helper"));

    let (run, action) = run.advance_with(Event::ScriptCompiled { script: script(&source) }, SEED);
    assert!(matches!(action, Action::Execute { account_id, .. } if account_id == id));
    let (run, action) = run.advance_with(Event::Executed, SEED);
    assert!(matches!(action, Action::Submit));
    let (run, action) = run.advance_with(Event::Submitted, SEED);
    assert!(matches!(action, Action::Sleep { secs: SETTLE_SECS }));
    let (run, action) = run.advance_with(Event::Slept, SEED);
    assert!(matches!(action, Action::Sync));
    let (run, action) = run.advance_with(Event::Synced, SEED);
    assert!(matches!(action, Action::FetchAccount { account_id } if account_id == id));
    let (run, action) = run.advance_with(Event::AccountFetched { found: true }, SEED);
    assert!(matches!(action, Action::Finish));
    assert!(matches!(run, Run::Done));
}

#[test]
fn the_first_sync_leads_to_the_schnorr_contract() {
    let (run, _) = verify_schnorr();
    let (run, _) = run.advance(Event::Connected);
    let (_, action) = run.advance(Event::Synced);
    match action {
        Action::ReadFile { path } => assert_eq!(path, "./masm/accounts/schnorr.masm"),
        other => panic!("unexpected action {:?}", other),
    }
}

#[test]
fn missing_export_ends_the_run_before_any_transaction() {
    let (run, _) = registered(Demo::AddU256, SCHNORR_CONTRACT);
    let (run, action) = run.advance_with(Event::Registered, SEED);
    assert!(matches!(action, Action::Abort(Fault::MissingExport)));
    assert!(matches!(run, Run::Done));

    let (run, action) = run.advance_with(read(ADD_SCRIPT), SEED);
    assert!(matches!(action, Action::Abort(Fault::OutOfTurn)));
    assert!(matches!(run, Run::Done));
}

#[test]
fn no_step_before_the_lookup_builds_a_transaction() {
    let (run, first) = start(Demo::AddU256);
    let (run, second) = run.advance_with(Event::Connected, SEED);
    let (run, third) = run.advance_with(Event::Synced, SEED);
    let (run, fourth) = run.advance_with(read(SCHNORR_CONTRACT), SEED);
    let (run, fifth) = run.advance_with(anchor(), SEED);
    let (_, sixth) = run.advance_with(Event::Registered, SEED);
    for action in [first, second, third, fourth, fifth, sixth] {
        assert!(!matches!(
            action,
            Action::CompileScript { .. } | Action::Execute { .. } | Action::Submit
        ));
    }
}

#[test]
fn submit_failure_is_passed_over() {
    let (run, id) = executing(Demo::AddU256, ADD_CONTRACT, ADD_SCRIPT);
    let (run, action) = run.advance_with(Event::Executed, SEED);
    assert!(matches!(action, Action::Submit));

    let (run, action) = run.advance_with(client_failure(), SEED);
    assert!(matches!(action, Action::Sleep { secs: 3 }));
    assert!(matches!(run, Run::Settling { account_id } if account_id == id));

    let (run, action) = run.advance_with(Event::Slept, SEED);
    assert!(matches!(action, Action::Sync));
    let (run, action) = run.advance_with(Event::Synced, SEED);
    assert!(matches!(action, Action::FetchAccount { account_id } if account_id == id));
    let (run, action) = run.advance_with(Event::AccountFetched { found: true }, SEED);
    assert!(matches!(action, Action::Finish));
    assert!(matches!(run, Run::Done));
}

#[test]
fn the_same_seed_gives_the_same_identity() {
    let (_, first) = registered(Demo::AddU256, ADD_CONTRACT);
    let (_, second) = registered(Demo::AddU256, ADD_CONTRACT);
    assert_eq!(first.id(), second.id());
    assert_eq!(first, second);
}

#[test]
fn the_identity_does_not_depend_on_the_demo() {
    let (_, first) = registered(Demo::AddU256, SCHNORR_CONTRACT);
    let (_, second) = registered(Demo::Schnorr, SCHNORR_CONTRACT);
    assert_eq!(first.id(), second.id());
}

#[test]
fn successive_runs_draw_distinct_identities() {
    let mut ids = Vec::new();
    for _ in 0..3 {
        let (run, _) = add_u256();
        let (run, _) = run.advance(Event::Connected);
        let (run, _) = run.advance(Event::Synced);
        let (run, _) = run.advance(read(ADD_CONTRACT));
        match run.advance(anchor()) {
            (_, Action::Register { account, .. }) => ids.push(account.id()),
            (_, other) => panic!("unexpected action {:?}", other),
        }
    }
    assert_ne!(ids[0], ids[1]);
    assert_ne!(ids[0], ids[2]);
    assert_ne!(ids[1], ids[2]);
}

#[test]
fn only_the_step_at_the_anchor_draws_a_seed() {
    let (run, _) = start(Demo::AddU256);
    assert!(!run.draws_seed(&Event::Connected));
    assert!(!run.draws_seed(&anchor()));
    let (run, _) = run.advance_with(Event::Connected, SEED);
    let (run, _) = run.advance_with(Event::Synced, SEED);
    let (run, _) = run.advance_with(read(ADD_CONTRACT), SEED);
    assert!(run.draws_seed(&anchor()));
    assert!(!run.draws_seed(&Event::Synced));
    assert!(!run.draws_seed(&client_failure()));
}

#[test]
fn a_contract_that_does_not_compile_ends_the_run() {
    let (run, _) = start(Demo::AddU256);
    let (run, _) = run.advance_with(Event::Connected, SEED);
    let (run, _) = run.advance_with(Event::Synced, SEED);
    let (run, action) = run.advance_with(read("this is no assembly"), SEED);
    assert!(matches!(action, Action::Abort(Fault::CompileFailed(_))));
    assert!(matches!(run, Run::Done));
}

#[test]
fn an_unreadable_contract_ends_the_run() {
    let (run, _) = start(Demo::AddU256);
    let (run, _) = run.advance_with(Event::Connected, SEED);
    let (run, _) = run.advance_with(Event::Synced, SEED);
    let (run, action) = run.advance_with(Event::FileUnreadable, SEED);
    assert!(matches!(action, Action::Abort(Fault::FileUnreadable)));
    assert!(matches!(run, Run::Done));
}

#[test]
fn an_unreadable_script_ends_the_run() {
    let (run, _) = registered(Demo::AddU256, ADD_CONTRACT);
    let (run, _) = run.advance_with(Event::Registered, SEED);
    let (run, action) = run.advance_with(Event::FileUnreadable, SEED);
    assert!(matches!(action, Action::Abort(Fault::FileUnreadable)));
    assert!(matches!(run, Run::Done));
}

#[test]
fn a_malformed_anchor_ends_the_run() {
    for block_num in [1, 0x0003_0001, 0xffff_0000] {
        let (run, _) = start(Demo::AddU256);
        let (run, _) = run.advance_with(Event::Connected, SEED);
        let (run, _) = run.advance_with(Event::Synced, SEED);
        let (run, _) = run.advance_with(read(ADD_CONTRACT), SEED);
        let event = Event::AnchorFetched { block_num, block_hash: Digest::default() };
        let (run, action) = run.advance(event);
        assert!(matches!(action, Action::Abort(Fault::MalformedAnchor(_))));
        assert!(matches!(run, Run::Done));
    }
}

#[test]
fn an_account_that_the_client_does_not_know_ends_the_run() {
    let (run, _) = executing(Demo::AddU256, ADD_CONTRACT, ADD_SCRIPT);
    let (run, _) = run.advance_with(Event::Executed, SEED);
    let (run, _) = run.advance_with(Event::Submitted, SEED);
    let (run, _) = run.advance_with(Event::Slept, SEED);
    let (run, _) = run.advance_with(Event::Synced, SEED);
    let (run, action) = run.advance_with(Event::AccountFetched { found: false }, SEED);
    assert!(matches!(action, Action::Abort(Fault::AccountUnknown)));
    assert!(matches!(run, Run::Done));
}

#[test]
fn a_client_failure_is_handed_back_as_it_came() {
    let (run, _) = start(Demo::AddU256);
    let (run, action) = run.advance_with(client_failure(), SEED);
    assert!(matches!(action, Action::Fail(ClientError::AddNewAccountWithoutSeed)));
    assert!(matches!(run, Run::Done));

    let (run, _) = start(Demo::AddU256);
    let (run, _) = run.advance_with(Event::Connected, SEED);
    let (_, action) = run.advance_with(Event::ClientFailed(ClientError::AccountNonceTooLow), SEED);
    assert!(matches!(action, Action::Fail(ClientError::AccountNonceTooLow)));

    let (run, _) = start(Demo::AddU256);
    let (run, _) = run.advance_with(Event::Connected, SEED);
    let (run, _) = run.advance_with(Event::Synced, SEED);
    let (run, _) = run.advance_with(read(ADD_CONTRACT), SEED);
    let (_, action) = run.advance_with(client_failure(), SEED);
    assert!(matches!(action, Action::Fail(ClientError::AddNewAccountWithoutSeed)));

    let (run, _) = registered(Demo::AddU256, ADD_CONTRACT);
    let (_, action) = run.advance_with(client_failure(), SEED);
    assert!(matches!(action, Action::Fail(ClientError::AddNewAccountWithoutSeed)));
}

#[test]
fn a_client_failure_after_the_script_ends_the_run_but_at_submitting() {
    let (run, _) = registered(Demo::AddU256, ADD_CONTRACT);
    let (run, _) = run.advance_with(Event::Registered, SEED);
    let (run, _) = run.advance_with(read(ADD_SCRIPT), SEED);
    let (_, action) = run.advance_with(client_failure(), SEED);
    assert!(matches!(action, Action::Fail(_)));

    let (run, _) = executing(Demo::AddU256, ADD_CONTRACT, ADD_SCRIPT);
    let (_, action) = run.advance_with(client_failure(), SEED);
    assert!(matches!(action, Action::Fail(_)));

    let (run, _) = executing(Demo::AddU256, ADD_CONTRACT, ADD_SCRIPT);
    let (run, _) = run.advance_with(Event::Executed, SEED);
    let (run, _) = run.advance_with(Event::Submitted, SEED);
    let (run, _) = run.advance_with(Event::Slept, SEED);
    let (run, action) = run.advance_with(client_failure(), SEED);
    assert!(matches!(action, Action::Fail(_)));
    assert!(matches!(run, Run::Done));

    let (run, _) = executing(Demo::AddU256, ADD_CONTRACT, ADD_SCRIPT);
    let (run, _) = run.advance_with(Event::Executed, SEED);
    let (run, _) = run.advance_with(Event::Submitted, SEED);
    let (run, _) = run.advance_with(Event::Slept, SEED);
    let (run, _) = run.advance_with(Event::Synced, SEED);
    let (_, action) = run.advance_with(client_failure(), SEED);
    assert!(matches!(action, Action::Fail(_)));
}

#[test]
fn an_event_out_of_turn_ends_the_run() {
    let (run, _) = start(Demo::AddU256);
    let (run, action) = run.advance_with(Event::Synced, SEED);
    assert!(matches!(action, Action::Abort(Fault::OutOfTurn)));
    assert!(matches!(run, Run::Done));

    let (run, _) = start(Demo::AddU256);
    let (run, _) = run.advance_with(Event::Connected, SEED);
    let (run, _) = run.advance_with(Event::Synced, SEED);
    let (_, action) = run.advance_with(client_failure(), SEED);
    assert!(matches!(action, Action::Abort(Fault::OutOfTurn)));

    let (run, _) = executing(Demo::AddU256, ADD_CONTRACT, ADD_SCRIPT);
    let (run, _) = run.advance_with(Event::Executed, SEED);
    let (run, _) = run.advance_with(Event::Submitted, SEED);
    let (_, action) = run.advance_with(client_failure(), SEED);
    assert!(matches!(action, Action::Abort(Fault::OutOfTurn)));
}

#[test]
fn a_run_that_is_over_answers_nothing() {
    let events = [
        Event::Connected,
        Event::Synced,
        Event::Registered,
        Event::Executed,
        Event::Submitted,
        Event::Slept,
        Event::FileUnreadable,
        Event::AccountFetched { found: true },
        client_failure(),
    ];
    for event in events {
        let (run, action) = Run::Done.advance(event);
        assert!(matches!(action, Action::Abort(Fault::OutOfTurn)));
        assert!(matches!(run, Run::Done));
    }
}

#[test]
fn a_compiled_contract_supports_every_account_type() {
    let (run, action) = contract_compiled(Demo::Schnorr, Ok(component(SCHNORR_CONTRACT)));
    assert!(matches!(action, Action::FetchAnchor));
    match run {
        Run::Anchoring { demo, component } => {
            assert_eq!(demo, Demo::Schnorr);
            assert!(component.supports_type(AccountType::RegularAccountImmutableCode));
            assert!(component.supports_type(AccountType::FungibleFaucet));
            assert_eq!(component.library(), self::component(SCHNORR_CONTRACT).library());
        }
        other => panic!("unexpected run {:?}", other),
    }
}

#[test]
fn a_refused_contract_is_a_fault() {
    let refusal = AccountError::StorageTooManySlots(300);
    let (run, action) = contract_compiled(Demo::AddU256, Err(refusal));
    assert!(matches!(
        action,
        Action::Abort(Fault::CompileFailed(AccountError::StorageTooManySlots(300)))
    ));
    assert!(matches!(run, Run::Done));
}

#[test]
fn a_derived_contract_is_registered_under_its_identifier() {
    let component = component(ADD_CONTRACT).with_supports_all_types();
    let contract = contract_lifecycle::account::derive_contract(
        SEED,
        EPOCH_BLOCK,
        Digest::default(),
        &component,
    )
    .unwrap();
    let id = contract.id;
    let ground = contract.seed;
    let (run, action) = contract_derived(Demo::AddU256, component, Ok(contract));
    assert!(matches!(run, Run::Registering { account_id, .. } if account_id == id));
    match action {
        Action::Register { account, seed, overwrite } => {
            assert!(!overwrite);
            assert_eq!(u128::from(account.id()), id);
            assert_eq!(seed, ground);
        }
        other => panic!("unexpected action {:?}", other),
    }
}

#[test]
fn a_fault_at_deriving_ends_the_run() {
    let component = component(ADD_CONTRACT);
    let (run, action) = contract_derived(Demo::AddU256, component, Err(Fault::AccountUnknown));
    assert!(matches!(action, Action::Abort(Fault::AccountUnknown)));
    assert!(matches!(run, Run::Done));
}

#[test]
fn a_resolved_procedure_leads_to_the_script() {
    let (run, action) = procedure_resolved(Demo::Schnorr, 42, Some("0xabc".to_string()));
    match action {
        Action::ReadFile { path } => assert_eq!(path, "./masm/scripts/schnorr_script.masm"),
        other => panic!("unexpected action {:?}", other),
    }
    match run {
        Run::LoadingScript { demo, account_id, digest } => {
            assert_eq!(demo, Demo::Schnorr);
            assert_eq!(account_id, 42);
            assert_eq!(digest, "0xabc");
        }
        other => panic!("unexpected run {:?}", other),
    }
    let (run, action) = procedure_resolved(Demo::Schnorr, 42, None);
    assert!(matches!(action, Action::Abort(Fault::MissingExport)));
    assert!(matches!(run, Run::Done));
}

#[test]
fn a_request_is_executed_against_the_account_of_the_run() {
    let compiled = script("begin push.1 drop end");
    let request = TransactionRequestBuilder::new().with_custom_script(compiled).unwrap().build();
    let (run, action) = request_made(77, Ok(request));
    assert!(matches!(run, Run::Executing { account_id: 77 }));
    assert!(matches!(action, Action::Execute { account_id: 77, .. }));
}

#[test]
fn the_script_is_filled_with_the_digest_that_the_run_keeps() {
    let run = Run::LoadingScript {
        demo: Demo::AddU256,
        account_id: 5,
        digest: "0x0123".to_string(),
    };
    let (run, action) = run.advance(read("call.{add_u256} call.{add_u256} call.{verify_schnorr}"));
    match action {
        Action::CompileScript { source, inputs } => {
            assert_eq!(source, "call.0x0123 call.0x0123 call.{verify_schnorr}");
            assert!(inputs.is_empty());
        }
        other => panic!("unexpected action {:?}", other),
    }
    assert!(matches!(run, Run::CompilingScript { account_id: 5 }));
}
