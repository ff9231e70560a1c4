//! An authorization-gated registry store: named registries, each owned by an
//! account and holding named devices with free-form metadata and data pairs,
//! aggregated under a contract that performs owner-checked mutation by path.

mod account_id;
mod contract;
mod device;
mod error;
mod ops;
mod registry;

pub use account_id::AccountId;
pub use contract::Contract;
pub use contract::ContractView;
pub use device::Device;
pub use device::DeviceView;
pub use device::kv_view;
pub use error::RegistryError;
pub use ops::MAX_REGISTRY_NAME_LEN;
pub use ops::add_device;
pub use ops::create_registry;
pub use ops::set_device_data;
pub use ops::set_device_metadata;
pub use ops::set_device_metadata_param;
pub use registry::Registry;
pub use registry::RegistryView;
