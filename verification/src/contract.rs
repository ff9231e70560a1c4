use vstd::prelude::*;

use crate::account_id::AccountId;
use crate::registry::Registry;
use crate::registry::RegistryView;

verus! {

/// The top-level aggregate: every registry of the store, by name.
///
/// Registry names stay unique and every held registry stays well-formed:
/// that is `ContractView::wf`, which every operation of this crate preserves.
pub struct Contract {
    pub registries: Vec<(String, Registry)>,
}

/// Mathematical model of a `Contract`.
#[verifier::ext_equal]
pub struct ContractView {
    pub registries: Seq<(Seq<char>, RegistryView)>,
}

impl View for Contract {
    type V = ContractView;

    open spec fn view(&self) -> ContractView {
        ContractView { registries: self.registries@.map_values(|p: (String, Registry)| (p.0@, p.1@)) }
    }
}

impl ContractView {
    /// Well-formedness: registry names are unique and every registry is
    /// itself well-formed.
    pub open spec fn wf(self) -> bool {
        &&& forall|i: int, j: int|
            0 <= i < j < self.registries.len() ==> (#[trigger] self.registries[i]).0 != (
            #[trigger] self.registries[j]).0
        &&& forall|i: int|
            0 <= i < self.registries.len() ==> (#[trigger] self.registries[i]).1.wf()
    }

    /// Whether some registry entry carries `name`.
    pub open spec fn has_registry(self, name: Seq<char>) -> bool {
        exists|i: int| 0 <= i < self.registries.len() && (#[trigger] self.registries[i]).0 == name
    }

    /// The index of the registry entry carrying `name`; under `wf` and
    /// `has_registry(name)` it is the unique such index.
    pub open spec fn registry_index(self, name: Seq<char>) -> int {
        choose|i: int| 0 <= i < self.registries.len() && (#[trigger] self.registries[i]).0 == name
    }

    /// The registry carrying `name`.
    pub open spec fn registry_named(self, name: Seq<char>) -> RegistryView {
        self.registries[self.registry_index(name)].1
    }

    /// This contract with the registry entry at `i` replaced by `r`.
    pub open spec fn with_registry(self, i: int, r: RegistryView) -> ContractView {
        ContractView { registries: self.registries.update(i, (self.registries[i].0, r)) }
    }
}

/// Replacing the registry held at a valid index, under its same name, by a
/// well-formed registry keeps a well-formed contract well-formed.
pub(crate) proof fn lemma_replace_registry_keeps_wf(c: ContractView, i: int, r: RegistryView)
    requires
        c.wf(),
        0 <= i < c.registries.len(),
        r.wf(),
    ensures
        c.with_registry(i, r).wf(),
{
    let nc = c.with_registry(i, r);
    assert forall|a: int, b: int|
        0 <= a < b < nc.registries.len() implies (#[trigger] nc.registries[a]).0 != (
    #[trigger] nc.registries[b]).0 by {
        assert(nc.registries[a].0 == c.registries[a].0);
        assert(nc.registries[b].0 == c.registries[b].0);
    }
    assert forall|a: int| 0 <= a < nc.registries.len() implies (#[trigger] nc.registries[a]).1.wf() by {
        if a != i {
            assert(nc.registries[a] == c.registries[a]);
        }
    }
}

impl Contract {
    /// Linear scan for the first registry entry named `name`.
    pub(crate) fn find_registry(&self, name: &String) -> (r: Option<usize>)
        ensures
            match r {
                Some(i) => {
                    &&& i < self@.registries.len()
                    &&& self@.registries[i as int].0 == name@
                    &&& forall|j: int| 0 <= j < i ==> (#[trigger] self@.registries[j]).0 != name@
                },
                None => !self@.has_registry(name@),
            },
    {
        let mut i: usize = 0;
        while i < self.registries.len()
            invariant
                i <= self.registries@.len(),
                forall|j: int| 0 <= j < i ==> (#[trigger] self@.registries[j]).0 != name@,
            decreases self.registries@.len() - i,
        {
            if self.registries[i].0 == *name {
                assert(self@.registries[i as int].0 == name@);
                return Some(i);
            }
            i += 1;
        }
        None
    }

    /// Whether a registry named `registry_name` exists in this contract.
    pub fn validate_exists_registry(&self, registry_name: &String) -> (r: bool)
        ensures
            r == self@.has_registry(registry_name@),
    {
        self.find_registry(registry_name).is_some()
    }

    /// Whether the registry named `registry_name` exists and is owned by
    /// `signer_account`. Returns `false`, not an error, when it is absent.
    pub fn validate_owner(&self, registry_name: String, signer_account: &AccountId) -> (r: bool)
        requires
            self@.wf(),
        ensures
            r == (self@.has_registry(registry_name@)
                && self@.registry_named(registry_name@).owner_id == signer_account@),
    {
        match self.find_registry(&registry_name) {
            Some(i) => {
                proof {
                    assert(self@.registry_index(registry_name@) == i as int);
                }
                self.registries[i].1.owner_id.equals(signer_account)
            },
            None => false,
        }
    }

    /// Whether a device named `device_name` exists in `registry`.
    pub fn validate_exists_device(&self, registry: &Registry, device_name: &String) -> (r: bool)
        ensures
            r == registry@.has_device(device_name@),
    {
        registry.find_device(device_name).is_some()
    }
}

} // verus!
