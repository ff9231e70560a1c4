use vstd::prelude::*;
use vstd::std_specs::iter::IteratorSpec;

use crate::account_id::AccountId;
use crate::contract::Contract;
use crate::device::Device;
use crate::device::DeviceView;
use crate::device::kv_view;
use crate::error::RegistryError;
use crate::registry::Registry;
use crate::registry::RegistryView;

verus! {

broadcast use vstd::string::group_string_axioms;

/// The longest registry name accepted by `create_registry`, in characters.
pub const MAX_REGISTRY_NAME_LEN: usize = 64;

/// Whether `s` holds at most `k` characters, counted without reading past
/// the first `k + 1`.
fn char_count_at_most(s: &str, k: usize) -> (r: bool)
    ensures
        r == (s@.len() <= k),
{
    let mut it = s.chars();
    let mut n: usize = 0;
    proof {
        assert(it.remaining() =~= s@.skip(0));
    }
    loop
        invariant
            n <= k,
            n <= s@.len(),
            it.remaining() == s@.skip(n as int),
        decreases s@.len() - n,
    {
        match it.next() {
            None => {
                assert(s@.skip(n as int).len() == 0);
                assert(s@.len() == n);
                return true;
            },
            Some(_) => {
                assert(s@.skip(n as int).len() > 0);
                if n == k {
                    assert(s@.len() > k);
                    return false;
                }
                n += 1;
                proof {
                    assert(it.remaining() =~= s@.skip(n as int));
                }
            },
        }
    }
}

/// Creates a registry named `name` and owned by `owner`, with no devices.
///
/// Succeeds exactly when `name` is at most 64 characters long, and then the
/// new registry carries the given name and owner, `device_count == 0`, and
/// empty `device_ids` and `devices`. A longer name is rejected with
/// `NameTooLong` and nothing is allocated.
pub fn create_registry(name: String, owner: AccountId) -> (result: Result<Registry, RegistryError>)
    ensures
        name@.len() <= MAX_REGISTRY_NAME_LEN ==> (result matches Ok(r) && r@ == (RegistryView {
            name: name@,
            owner_id: owner@,
            device_count: 0,
            device_ids: Seq::empty(),
            devices: Seq::empty(),
        }) && r@.wf()),
        name@.len() > MAX_REGISTRY_NAME_LEN ==> result == Err::<Registry, RegistryError>(
            RegistryError::NameTooLong,
        ),
{
    if !char_count_at_most(name.as_str(), MAX_REGISTRY_NAME_LEN) {
        return Err(RegistryError::NameTooLong);
    }
    let ghost name_v = name@;
    let ghost owner_v = owner@;
    let registry = Registry {
        device_count: 0,
        device_ids: Vec::new(),
        name,
        owner_id: owner,
        devices: Vec::new(),
    };
    proof {
        assert(registry@ =~~= (RegistryView {
            name: name_v,
            owner_id: owner_v,
            device_count: 0,
            device_ids: Seq::empty(),
            devices: Seq::empty(),
        }));
    }
    Ok(registry)
}

/// Adds a device named `name` to `registry`, with the given description,
/// metadata and data, and records its external handle `device_id`.
///
/// Rejects a name already present with `DeviceNotFound` (the store's
/// historical error kind for an insert collision) and then leaves the
/// registry unchanged. Otherwise appends the device and its handle and
/// increments `device_count`, preserving well-formedness.
pub fn add_device(
    registry: &mut Registry,
    device_id: AccountId,
    name: String,
    description: String,
    metadata: Vec<(String, String)>,
    data: Vec<(String, String)>,
) -> (result: Result<(), RegistryError>)
    requires
        old(registry)@.wf(),
    ensures
        final(registry)@.wf(),
        old(registry)@.has_device(name@) ==> (result == Err::<(), RegistryError>(
            RegistryError::DeviceNotFound,
        ) && *final(registry) == *old(registry)),
        !old(registry)@.has_device(name@) ==> (result == Ok::<(), RegistryError>(())
            && final(registry)@ == (RegistryView {
            device_count: old(registry)@.device_count + 1,
            device_ids: old(registry)@.device_ids.push(device_id@),
            devices: old(registry)@.devices.push(
                (
                    name@,
                    (DeviceView {
                        name: name@,
                        metadata: kv_view(metadata@),
                        data: kv_view(data@),
                        description: description@,
                    }),
                ),
            ),
            ..old(registry)@
        })),
{
    if registry.find_device(&name).is_some() {
        return Err(RegistryError::DeviceNotFound);
    }
    let ghost ov = old(registry)@;
    let ghost name_v = name@;
    let ghost dv = DeviceView {
        name: name@,
        metadata: kv_view(metadata@),
        data: kv_view(data@),
        description: description@,
    };
    let device = Device { name: name.clone(), metadata, data, description };
    registry.device_ids.push(device_id);
    registry.devices.push((name, device));
    proof {
        assert(registry.devices.len() == registry.devices@.len());
        assert(registry@.devices =~~= ov.devices.push((name_v, dv)));
        assert(registry@.device_ids =~~= ov.device_ids.push(device_id@));
    }
    registry.device_count = registry.device_count + 1;
    proof {
        let nv = registry@;
        assert(nv =~~= (RegistryView {
            device_count: ov.device_count + 1,
            device_ids: ov.device_ids.push(device_id@),
            devices: ov.devices.push((name_v, dv)),
            ..ov
        }));
        assert forall|i: int, j: int|
            0 <= i < j < nv.devices.len() implies (#[trigger] nv.devices[i]).0 != (
        #[trigger] nv.devices[j]).0 by {
            if j == nv.devices.len() - 1 {
                assert(nv.devices[i] == ov.devices[i]);
                if ov.devices[i].0 == name_v {
                    assert(ov.has_device(name_v));
                }
            } else {
                assert(nv.devices[i] == ov.devices[i]);
                assert(nv.devices[j] == ov.devices[j]);
            }
        }
    }
    Ok(())
}

/// Replaces the entire metadata sequence of the device named `name` in
/// `registry` with `metadata` — a full overwrite, never a merge.
///
/// Fails with `DeviceNotFound`, leaving the registry unchanged, exactly when
/// no device carries `name`.
pub fn set_device_metadata(
    registry: &mut Registry,
    name: String,
    metadata: Vec<(String, String)>,
) -> (result: Result<(), RegistryError>)
    requires
        old(registry)@.wf(),
    ensures
        final(registry)@.wf(),
        !old(registry)@.has_device(name@) ==> (result == Err::<(), RegistryError>(
            RegistryError::DeviceNotFound,
        ) && *final(registry) == *old(registry)),
        old(registry)@.has_device(name@) ==> (result == Ok::<(), RegistryError>(())
            && final(registry)@ == old(registry)@.with_device_metadata(
            old(registry)@.device_index(name@),
            kv_view(metadata@),
        )),
{
    match registry.find_device(&name) {
        None => Err(RegistryError::DeviceNotFound),
        Some(i) => {
            let ghost ov = registry@;
            let ghost pairs = kv_view(metadata@);
            proof {
                assert(ov.device_index(name@) == i as int);
            }
            let entry = &mut registry.devices[i];
            entry.1.metadata = metadata;
            proof {
                assert(registry@ =~~= ov.with_device_metadata(i as int, pairs));
                crate::registry::lemma_replace_device_keeps_wf(
                    ov,
                    i as int,
                    (DeviceView { metadata: pairs, ..ov.devices[i as int].1 }),
                );
            }
            Ok(())
        },
    }
}

/// Replaces the entire data sequence of the device named `name` in
/// `registry` with `data` — a full overwrite, never a merge.
///
/// Fails with `DeviceNotFound`, leaving the registry unchanged, exactly when
/// no device carries `name`.
pub fn set_device_data(
    registry: &mut Registry,
    name: String,
    data: Vec<(String, String)>,
) -> (result: Result<(), RegistryError>)
    requires
        old(registry)@.wf(),
    ensures
        final(registry)@.wf(),
        !old(registry)@.has_device(name@) ==> (result == Err::<(), RegistryError>(
            RegistryError::DeviceNotFound,
        ) && *final(registry) == *old(registry)),
        old(registry)@.has_device(name@) ==> (result == Ok::<(), RegistryError>(())
            && final(registry)@ == old(registry)@.with_device_data(
            old(registry)@.device_index(name@),
            kv_view(data@),
        )),
{
    match registry.find_device(&name) {
        None => Err(RegistryError::DeviceNotFound),
        Some(i) => {
            let ghost ov = registry@;
            let ghost pairs = kv_view(data@);
            proof {
                assert(ov.device_index(name@) == i as int);
            }
            let entry = &mut registry.devices[i];
            entry.1.data = data;
            proof {
                assert(registry@ =~~= ov.with_device_data(i as int, pairs));
                crate::registry::lemma_replace_device_keeps_wf(
                    ov,
                    i as int,
                    (DeviceView { data: pairs, ..ov.devices[i as int].1 }),
                );
            }
            Ok(())
        },
    }
}

/// Appends the pair `(param, value)` to the metadata of the device named
/// `device_name` inside the registry named `registry_name` — additive, never
/// a replace; duplicate param keys accumulate.
///
/// This is the one owner-checked operation of the store: it fails with
/// `RegistryNotFound` when no registry carries `registry_name`, with
/// `UnauthorizedAccess` when `caller` is not that registry's owner, and with
/// `DeviceNotFound` when no device there carries `device_name`; each failure
/// leaves the contract unchanged.
pub fn set_device_metadata_param(
    contract: &mut Contract,
    caller: &AccountId,
    registry_name: String,
    device_name: String,
    param: String,
    value: String,
) -> (result: Result<(), RegistryError>)
    requires
        old(contract)@.wf(),
    ensures
        final(contract)@.wf(),
        !old(contract)@.has_registry(registry_name@) ==> (result == Err::<(), RegistryError>(
            RegistryError::RegistryNotFound,
        ) && *final(contract) == *old(contract)),
        (old(contract)@.has_registry(registry_name@) && old(contract)@.registry_named(
            registry_name@,
        ).owner_id != caller@) ==> (result == Err::<(), RegistryError>(
            RegistryError::UnauthorizedAccess,
        ) && *final(contract) == *old(contract)),
        (old(contract)@.has_registry(registry_name@) && old(contract)@.registry_named(
            registry_name@,
        ).owner_id == caller@ && !old(contract)@.registry_named(registry_name@).has_device(
            device_name@,
        )) ==> (result == Err::<(), RegistryError>(RegistryError::DeviceNotFound)
            && *final(contract) == *old(contract)),
        (old(contract)@.has_registry(registry_name@) && old(contract)@.registry_named(
            registry_name@,
        ).owner_id == caller@ && old(contract)@.registry_named(registry_name@).has_device(
            device_name@,
        )) ==> (result == Ok::<(), RegistryError>(()) && final(contract)@ == ({
            let ri = old(contract)@.registry_index(registry_name@);
            let reg = old(contract)@.registries[ri].1;
            old(contract)@.with_registry(
                ri,
                reg.with_metadata_appended(reg.device_index(device_name@), param@, value@),
            )
        })),
{
    let ri = match contract.find_registry(&registry_name) {
        None => {
            return Err(RegistryError::RegistryNotFound);
        },
        Some(ri) => ri,
    };
    proof {
        assert(contract@.registry_index(registry_name@) == ri as int);
        assert(contract@.registries[ri as int].1.wf());
    }
    if !contract.registries[ri].1.owner_id.equals(caller) {
        return Err(RegistryError::UnauthorizedAccess);
    }
    let di = match contract.registries[ri].1.find_device(&device_name) {
        None => {
            return Err(RegistryError::DeviceNotFound);
        },
        Some(di) => di,
    };
    proof {
        assert(contract@.registries[ri as int].1.device_index(device_name@) == di as int);
    }
    let ghost ov = contract@;
    let ghost pv = param@;
    let ghost vv = value@;
    let entry = &mut contract.registries[ri];
    let dev_entry = &mut entry.1.devices[di];
    dev_entry.1.metadata.push((param, value));
    proof {
        let reg = ov.registries[ri as int].1;
        let new_reg = reg.with_metadata_appended(di as int, pv, vv);
        assert(contract@ =~~= ov.with_registry(ri as int, new_reg));
        crate::registry::lemma_replace_device_keeps_wf(
            reg,
            di as int,
            (DeviceView {
                metadata: reg.devices[di as int].1.metadata.push((pv, vv)),
                ..reg.devices[di as int].1
            }),
        );
        crate::contract::lemma_replace_registry_keeps_wf(ov, ri as int, new_reg);
    }
    Ok(())
}

} // verus!
