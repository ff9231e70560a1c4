use solana_scm::AccountId;
use solana_scm::Contract;
use solana_scm::Registry;
use solana_scm::RegistryError;
use solana_scm::add_device;
use solana_scm::create_registry;
use solana_scm::set_device_data;
use solana_scm::set_device_metadata;
use solana_scm::set_device_metadata_param;

fn account(tag: u8) -> AccountId {
    AccountId { bytes: [tag; 32] }
}

fn pairs(raw: &[(&str, &str)]) -> Vec<(String, String)> {
    raw.iter().map(|(k, v)| (k.to_string(), v.to_string())).collect()
}

fn fresh_registry(name: &str, owner: AccountId) -> Registry {
    create_registry(name.to_string(), owner).expect("creation within the name bound succeeds")
}

#[test]
fn create_registry_short_name_succeeds() {
    let owner = account(1);
    let registry = fresh_registry("R", owner);
    assert_eq!(registry.name, "R");
    assert_eq!(registry.owner_id.bytes, [1u8; 32]);
    assert_eq!(registry.device_count, 0);
    assert!(registry.device_ids.is_empty());
    assert!(registry.devices.is_empty());
}

#[test]
fn create_registry_name_at_bound_succeeds() {
    let name = "a".repeat(64);
    let registry = create_registry(name.clone(), account(1)).expect("64 characters are accepted");
    assert_eq!(registry.name, name);
    assert_eq!(registry.device_count, 0);
}

#[test]
fn create_registry_name_too_long_fails() {
    let result = create_registry("a".repeat(65), account(1));
    assert_eq!(result.err(), Some(RegistryError::NameTooLong));
}

#[test]
fn create_registry_counts_characters_not_bytes() {
    // 64 two-byte characters: within the character bound even though the
    // UTF-8 encoding is 128 bytes long.
    let name = "é".repeat(64);
    assert!(create_registry(name, account(1)).is_ok());
    assert_eq!(
        create_registry("é".repeat(65), account(1)).err(),
        Some(RegistryError::NameTooLong)
    );
}

#[test]
fn add_device_keeps_count_ids_devices_in_sync() {
    let mut registry = fresh_registry("R", account(1));
    for k in 0..5u8 {
        let name = format!("device-{}", k);
        let r = add_device(
            &mut registry,
            account(100 + k),
            name,
            "a device".to_string(),
            pairs(&[("kind", "sensor")]),
            pairs(&[("sample", "0")]),
        );
        assert!(r.is_ok());
        assert_eq!(registry.device_count as usize, registry.devices.len());
        assert_eq!(registry.devices.len(), registry.device_ids.len());
        assert_eq!(registry.device_count as usize, (k + 1) as usize);
    }
    assert_eq!(registry.devices[0].0, "device-0");
    assert_eq!(registry.device_ids[3].bytes, [103u8; 32]);
}

#[test]
fn add_device_duplicate_name_fails_and_changes_nothing() {
    let mut registry = fresh_registry("R", account(1));
    add_device(
        &mut registry,
        account(2),
        "D1".to_string(),
        "first".to_string(),
        pairs(&[("k", "v")]),
        vec![],
    )
    .expect("first insertion succeeds");
    let r = add_device(
        &mut registry,
        account(3),
        "D1".to_string(),
        "second".to_string(),
        pairs(&[("other", "pair")]),
        vec![],
    );
    assert_eq!(r, Err(RegistryError::DeviceNotFound));
    assert_eq!(registry.device_count, 1);
    assert_eq!(registry.devices.len(), 1);
    assert_eq!(registry.device_ids.len(), 1);
    assert_eq!(registry.devices[0].1.description, "first");
    assert_eq!(registry.devices[0].1.metadata, pairs(&[("k", "v")]));
}

#[test]
fn set_device_metadata_missing_device_fails_and_changes_nothing() {
    let mut registry = fresh_registry("R", account(1));
    add_device(
        &mut registry,
        account(2),
        "D1".to_string(),
        "".to_string(),
        pairs(&[("k", "v")]),
        vec![],
    )
    .expect("insertion succeeds");
    let r = set_device_metadata(&mut registry, "missing".to_string(), pairs(&[("x", "y")]));
    assert_eq!(r, Err(RegistryError::DeviceNotFound));
    assert_eq!(registry.device_count, 1);
    assert_eq!(registry.devices.len(), 1);
    assert_eq!(registry.devices[0].1.metadata, pairs(&[("k", "v")]));
}

#[test]
fn set_device_data_missing_device_fails_and_changes_nothing() {
    let mut registry = fresh_registry("R", account(1));
    add_device(
        &mut registry,
        account(2),
        "D1".to_string(),
        "".to_string(),
        vec![],
        pairs(&[("d", "0")]),
    )
    .expect("insertion succeeds");
    let r = set_device_data(&mut registry, "missing".to_string(), pairs(&[("d", "1")]));
    assert_eq!(r, Err(RegistryError::DeviceNotFound));
    assert_eq!(registry.devices[0].1.data, pairs(&[("d", "0")]));
}

#[test]
fn set_device_metadata_replaces_whole_sequence_keeping_duplicates() {
    let mut registry = fresh_registry("R", account(1));
    add_device(
        &mut registry,
        account(2),
        "D1".to_string(),
        "".to_string(),
        pairs(&[("old", "gone")]),
        vec![],
    )
    .expect("insertion succeeds");
    let r = set_device_metadata(
        &mut registry,
        "D1".to_string(),
        pairs(&[("k", "v1"), ("k", "v2")]),
    );
    assert_eq!(r, Ok(()));
    assert_eq!(registry.devices[0].1.metadata, pairs(&[("k", "v1"), ("k", "v2")]));
}

#[test]
fn set_device_data_replaces_whole_sequence() {
    let mut registry = fresh_registry("R", account(1));
    add_device(
        &mut registry,
        account(2),
        "D1".to_string(),
        "".to_string(),
        vec![],
        pairs(&[("a", "1"), ("b", "2")]),
    )
    .expect("insertion succeeds");
    let r = set_device_data(&mut registry, "D1".to_string(), pairs(&[("only", "this")]));
    assert_eq!(r, Ok(()));
    assert_eq!(registry.devices[0].1.data, pairs(&[("only", "this")]));
    // the metadata sequence is untouched
    assert_eq!(registry.devices[0].1.metadata, vec![]);
}

fn contract_with_one_device(owner: AccountId) -> Contract {
    let mut registry = fresh_registry("R", owner);
    add_device(
        &mut registry,
        account(9),
        "D1".to_string(),
        "".to_string(),
        vec![],
        vec![],
    )
    .expect("insertion succeeds");
    Contract { registries: vec![("R".to_string(), registry)] }
}

#[test]
fn param_append_missing_registry_fails() {
    let mut contract = contract_with_one_device(account(1));
    let r = set_device_metadata_param(
        &mut contract,
        &account(1),
        "missing".to_string(),
        "D1".to_string(),
        "fw".to_string(),
        "1.2".to_string(),
    );
    assert_eq!(r, Err(RegistryError::RegistryNotFound));
    assert!(contract.registries[0].1.devices[0].1.metadata.is_empty());
}

#[test]
fn param_append_missing_device_fails() {
    let mut contract = contract_with_one_device(account(1));
    let r = set_device_metadata_param(
        &mut contract,
        &account(1),
        "R".to_string(),
        "missing".to_string(),
        "fw".to_string(),
        "1.2".to_string(),
    );
    assert_eq!(r, Err(RegistryError::DeviceNotFound));
    assert!(contract.registries[0].1.devices[0].1.metadata.is_empty());
}

#[test]
fn param_append_by_non_owner_fails_and_changes_nothing() {
    let mut contract = contract_with_one_device(account(1));
    let r = set_device_metadata_param(
        &mut contract,
        &account(2),
        "R".to_string(),
        "D1".to_string(),
        "fw".to_string(),
        "1.2".to_string(),
    );
    assert_eq!(r, Err(RegistryError::UnauthorizedAccess));
    assert!(contract.registries[0].1.devices[0].1.metadata.is_empty());
}

#[test]
fn param_append_by_owner_appends_one_pair_per_call_in_order() {
    let mut contract = contract_with_one_device(account(1));
    let r = set_device_metadata_param(
        &mut contract,
        &account(1),
        "R".to_string(),
        "D1".to_string(),
        "fw".to_string(),
        "1.2".to_string(),
    );
    assert_eq!(r, Ok(()));
    assert_eq!(
        contract.registries[0].1.devices[0].1.metadata,
        pairs(&[("fw", "1.2")])
    );
    let r = set_device_metadata_param(
        &mut contract,
        &account(1),
        "R".to_string(),
        "D1".to_string(),
        "fw".to_string(),
        "1.3".to_string(),
    );
    assert_eq!(r, Ok(()));
    assert_eq!(
        contract.registries[0].1.devices[0].1.metadata,
        pairs(&[("fw", "1.2"), ("fw", "1.3")])
    );
}

#[test]
fn end_to_end_owner_path_works_and_other_identity_is_rejected() {
    let a = account(1);
    let b = account(2);
    let mut registry = fresh_registry("R", a);
    add_device(
        &mut registry,
        account(9),
        "D1".to_string(),
        "demo device".to_string(),
        vec![],
        vec![],
    )
    .expect("insertion succeeds");
    set_device_metadata(&mut registry, "D1".to_string(), pairs(&[("x", "1")]))
        .expect("the device exists");
    assert_eq!(registry.devices[0].1.metadata, pairs(&[("x", "1")]));

    let mut contract = Contract { registries: vec![("R".to_string(), registry)] };
    let r = set_device_metadata_param(
        &mut contract,
        &b,
        "R".to_string(),
        "D1".to_string(),
        "fw".to_string(),
        "1.2".to_string(),
    );
    assert_eq!(r, Err(RegistryError::UnauthorizedAccess));
    assert_eq!(contract.registries[0].1.devices[0].1.metadata, pairs(&[("x", "1")]));
}

#[test]
fn validation_helpers_report_existence_and_ownership() {
    let owner = account(1);
    let contract = contract_with_one_device(owner);
    assert!(contract.validate_exists_registry(&"R".to_string()));
    assert!(!contract.validate_exists_registry(&"other".to_string()));
    assert!(contract.validate_owner("R".to_string(), &owner));
    assert!(!contract.validate_owner("R".to_string(), &account(2)));
    assert!(!contract.validate_owner("missing".to_string(), &owner));
    let registry = &contract.registries[0].1;
    assert!(contract.validate_exists_device(registry, &"D1".to_string()));
    assert!(!contract.validate_exists_device(registry, &"D2".to_string()));
}
