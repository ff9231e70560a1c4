use vstd::prelude::*;

use crate::account_id::AccountId;
use crate::device::Device;
use crate::device::DeviceView;

verus! {

/// A named, owned collection of devices.
///
/// `device_ids` holds the external storage handles, parallel to `devices`;
/// `device_count` counts them. The three stay in sync and device names stay
/// unique: that is the well-formedness invariant `RegistryView::wf`, which
/// every operation of this crate preserves.
pub struct Registry {
    pub device_count: u64,
    pub device_ids: Vec<AccountId>,
    pub name: String,
    pub owner_id: AccountId,
    pub devices: Vec<(String, Device)>,
}

/// Mathematical model of a `Registry`.
#[verifier::ext_equal]
pub struct RegistryView {
    pub name: Seq<char>,
    pub owner_id: Seq<u8>,
    pub device_count: nat,
    pub device_ids: Seq<Seq<u8>>,
    pub devices: Seq<(Seq<char>, DeviceView)>,
}

impl View for Registry {
    type V = RegistryView;

    open spec fn view(&self) -> RegistryView {
        RegistryView {
            name: self.name@,
            owner_id: self.owner_id@,
            device_count: self.device_count as nat,
            device_ids: self.device_ids@.map_values(|a: AccountId| a@),
            devices: self.devices@.map_values(|p: (String, Device)| (p.0@, p.1@)),
        }
    }
}

impl RegistryView {
    /// Well-formedness: the count, the handle sequence and the device
    /// sequence agree in length, and device names are unique.
    pub open spec fn wf(self) -> bool {
        &&& self.device_count == self.devices.len()
        &&& self.device_ids.len() == self.devices.len()
        &&& forall|i: int, j: int|
            0 <= i < j < self.devices.len() ==> (#[trigger] self.devices[i]).0 != (
            #[trigger] self.devices[j]).0
    }

    /// Whether some device entry carries `name`.
    pub open spec fn has_device(self, name: Seq<char>) -> bool {
        exists|i: int| 0 <= i < self.devices.len() && (#[trigger] self.devices[i]).0 == name
    }

    /// The index of the device entry carrying `name`; under `wf` and
    /// `has_device(name)` it is the unique such index.
    pub open spec fn device_index(self, name: Seq<char>) -> int {
        choose|i: int| 0 <= i < self.devices.len() && (#[trigger] self.devices[i]).0 == name
    }

    /// This registry with the metadata of the device entry at `i` replaced.
    pub open spec fn with_device_metadata(self, i: int, pairs: Seq<(Seq<char>, Seq<char>)>) -> RegistryView {
        RegistryView {
            devices: self.devices.update(
                i,
                (self.devices[i].0, (DeviceView { metadata: pairs, ..self.devices[i].1 })),
            ),
            ..self
        }
    }

    /// This registry with the data of the device entry at `i` replaced.
    pub open spec fn with_device_data(self, i: int, pairs: Seq<(Seq<char>, Seq<char>)>) -> RegistryView {
        RegistryView {
            devices: self.devices.update(
                i,
                (self.devices[i].0, (DeviceView { data: pairs, ..self.devices[i].1 })),
            ),
            ..self
        }
    }

    /// This registry with `(param, value)` appended to the metadata of the
    /// device entry at `i`.
    pub open spec fn with_metadata_appended(self, i: int, param: Seq<char>, value: Seq<char>) -> RegistryView {
        RegistryView {
            devices: self.devices.update(
                i,
                (
                    self.devices[i].0,
                    (DeviceView {
                        metadata: self.devices[i].1.metadata.push((param, value)),
                        ..self.devices[i].1
                    }),
                ),
            ),
            ..self
        }
    }
}

/// Replacing the device held at a valid index, under its same name, keeps a
/// well-formed registry well-formed.
pub(crate) proof fn lemma_replace_device_keeps_wf(v: RegistryView, i: int, d: DeviceView)
    requires
        v.wf(),
        0 <= i < v.devices.len(),
    ensures
        (RegistryView { devices: v.devices.update(i, (v.devices[i].0, d)), ..v }).wf(),
{
    let nv = RegistryView { devices: v.devices.update(i, (v.devices[i].0, d)), ..v };
    assert forall|a: int, b: int|
        0 <= a < b < nv.devices.len() implies (#[trigger] nv.devices[a]).0 != (
    #[trigger] nv.devices[b]).0 by {
        assert(nv.devices[a].0 == v.devices[a].0);
        assert(nv.devices[b].0 == v.devices[b].0);
    }
}

impl Registry {
    /// Linear scan for the first device entry named `name`.
    pub(crate) fn find_device(&self, name: &String) -> (r: Option<usize>)
        ensures
            match r {
                Some(i) => {
                    &&& i < self@.devices.len()
                    &&& self@.devices[i as int].0 == name@
                    &&& forall|j: int| 0 <= j < i ==> (#[trigger] self@.devices[j]).0 != name@
                },
                None => !self@.has_device(name@),
            },
    {
        let mut i: usize = 0;
        while i < self.devices.len()
            invariant
                i <= self.devices@.len(),
                forall|j: int| 0 <= j < i ==> (#[trigger] self@.devices[j]).0 != name@,
            decreases self.devices@.len() - i,
        {
            if self.devices[i].0 == *name {
                assert(self@.devices[i as int].0 == name@);
                return Some(i);
            }
            i += 1;
        }
        None
    }
}

} // verus!
