use near_sdk::test_utils::{accounts, VMContextBuilder};
use near_sdk::AccountId;
use prediction_oracle::Oracle;

fn account(name: &str) -> AccountId {
    name.parse().unwrap()
}

fn get_context(predecessor_account_id: AccountId) -> VMContextBuilder {
    let mut builder = VMContextBuilder::new();
    builder
        .current_account_id(accounts(0))
        .signer_account_id(predecessor_account_id.clone())
        .predecessor_account_id(predecessor_account_id);
    builder
}

/// Installs a fresh host with the given context, keeping what is in storage.
fn enter(context: near_sdk::VMContext) {
    near_sdk::env::set_blockchain_interface(near_sdk::MockedBlockchain::new(
        context,
        near_sdk::test_vm_config(),
        near_sdk::RuntimeFeesConfig::test(),
        Default::default(),
        near_sdk::mock::with_mocked_blockchain(|b| b.take_storage()),
        Default::default(),
        None,
    ));
}

/// The storage key of an entry: the map's prefix, then the account name with
/// its length in four little-endian bytes before it.
fn entry_key(prefix: u8, name: &str) -> Vec<u8> {
    let mut key = vec![prefix];
    key.extend_from_slice(&(name.len() as u32).to_le_bytes());
    key.extend_from_slice(name.as_bytes());
    key
}

fn text_bytes(text: &str) -> Vec<u8> {
    let mut bytes = (text.len() as u32).to_le_bytes().to_vec();
    bytes.extend_from_slice(text.as_bytes());
    bytes
}

#[test]
fn request_and_set_response() {
    let mut context = get_context(accounts(1));
    enter(context.build());

    let mut contract = Oracle::default();
    contract.request_prediction("input_data".to_string(), "model_name".to_string());
    contract.set_response(accounts(1), "response_data".to_string());

    assert_eq!(
        "response_data".to_string(),
        contract.get_response(accounts(1)).unwrap()
    );
}

#[test]
fn get_nonexistent_response() {
    let contract = Oracle::default();
    assert_eq!(None, contract.get_response("francis.near".parse().unwrap()));
}

#[test]
fn fresh_registry_has_no_responses() {
    let contract = Oracle::default();
    for name in ["alice", "bob", "carol", "francis.near"] {
        assert_eq!(contract.get_response(account(name)), None);
    }
}

#[test]
fn response_is_read_back() {
    let mut contract = Oracle::default();
    contract.set_response(account("alice"), "forty-two".to_string());
    assert_eq!(contract.get_response(account("alice")), Some("forty-two".to_string()));
    assert_eq!(contract.get_response(account("alice")), Some("forty-two".to_string()));
}

#[test]
fn last_response_wins() {
    let mut contract = Oracle::default();
    contract.set_response(account("alice"), "first".to_string());
    contract.set_response(account("alice"), "second".to_string());
    assert_eq!(contract.get_response(account("alice")), Some("second".to_string()));
}

#[test]
fn response_touches_one_account() {
    let mut contract = Oracle::default();
    contract.set_response(account("alice"), "a".to_string());
    contract.set_response(account("bob"), "b".to_string());
    assert_eq!(contract.get_response(account("alice")), Some("a".to_string()));
    assert_eq!(contract.get_response(account("bob")), Some("b".to_string()));
    assert_eq!(contract.get_response(account("carol")), None);
}

#[test]
fn request_leaves_responses_alone() {
    let mut contract = Oracle::default();
    contract.submit_request(account("alice"), "2+2".to_string(), "calc-v1".to_string());
    assert_eq!(contract.get_response(account("alice")), None);
    assert_eq!(contract.get_response(account("bob")), None);

    contract.set_response(account("alice"), "4".to_string());
    contract.set_response(account("bob"), "other".to_string());
    contract.submit_request(account("alice"), "3+3".to_string(), "calc-v2".to_string());
    assert_eq!(contract.get_response(account("alice")), Some("4".to_string()));
    assert_eq!(contract.get_response(account("bob")), Some("other".to_string()));
}

#[test]
fn response_needs_no_request() {
    let mut contract = Oracle::default();
    contract.set_response(account("dave"), "unasked".to_string());
    assert_eq!(contract.get_response(account("dave")), Some("unasked".to_string()));
}

#[test]
fn alice_asks_and_is_answered() {
    let mut contract = Oracle::default();
    contract.submit_request(account("alice"), "2+2".to_string(), "calc-v1".to_string());
    contract.set_response(account("alice"), "4".to_string());
    assert_eq!(contract.get_response(account("alice")), Some("4".to_string()));
    assert_eq!(contract.get_response(account("bob")), None);
}

#[test]
fn alice_asks_through_the_host_and_is_answered() {
    enter(get_context(account("alice")).build());
    let mut contract = Oracle::default();
    contract.request_prediction("2+2".to_string(), "calc-v1".to_string());
    contract.set_response(account("alice"), "4".to_string());
    assert_eq!(contract.get_response(account("alice")), Some("4".to_string()));
    assert_eq!(contract.get_response(account("bob")), None);
}

#[test]
fn empty_response_is_not_absence() {
    let mut contract = Oracle::default();
    contract.set_response(account("carol"), String::new());
    let stored = contract.get_response(account("carol"));
    assert_eq!(stored, Some(String::new()));
    assert_ne!(stored, None);
}

#[test]
fn request_is_filed_under_the_calling_account() {
    enter(get_context(account("bob")).build());
    let mut contract = Oracle::default();
    contract.request_prediction("input_data".to_string(), "model_name".to_string());
    drop(contract);

    let mut expected = text_bytes("input_data");
    expected.extend(text_bytes("model_name"));
    assert_eq!(near_sdk::env::storage_read(&entry_key(0, "bob")), Some(expected));
    assert_eq!(near_sdk::env::storage_read(&entry_key(0, "alice")), None);
    assert_eq!(near_sdk::env::storage_read(&entry_key(1, "bob")), None);
}

#[test]
fn later_request_replaces_the_earlier_one() {
    let mut contract = Oracle::default();
    contract.submit_request(account("alice"), "first".to_string(), "m1".to_string());
    contract.submit_request(account("alice"), "second".to_string(), "m2".to_string());
    contract.submit_request(account("bob"), "".to_string(), "".to_string());
    drop(contract);

    let mut expected = text_bytes("second");
    expected.extend(text_bytes("m2"));
    assert_eq!(near_sdk::env::storage_read(&entry_key(0, "alice")), Some(expected));
    let mut empty_pair = text_bytes("");
    empty_pair.extend(text_bytes(""));
    assert_eq!(near_sdk::env::storage_read(&entry_key(0, "bob")), Some(empty_pair));
}

#[test]
fn responses_are_stored_under_their_own_prefix() {
    let mut contract = Oracle::default();
    contract.set_response(account("alice"), "4".to_string());
    drop(contract);

    assert_eq!(near_sdk::env::storage_read(&entry_key(1, "alice")), Some(text_bytes("4")));
    assert_eq!(near_sdk::env::storage_read(&entry_key(0, "alice")), None);
}

#[test]
fn registry_reads_what_storage_already_holds() {
    let mut contract = Oracle::default();
    contract.set_response(account("alice"), "kept".to_string());
    drop(contract);

    let reopened = Oracle::default();
    assert_eq!(reopened.get_response(account("alice")), Some("kept".to_string()));
    assert_eq!(reopened.get_response(account("bob")), None);
}
