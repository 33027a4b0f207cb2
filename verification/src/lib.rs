//! Cross-chain value-locking escrow.
//!
//! A depositor locks value in the vault and names a destination chain and
//! recipient. An authorized relayer releases the value once delivery is
//! confirmed; if no relayer acts before the timeout, the depositor reclaims it.
//! Every operation is a transition on explicit state: the caller, the clock and
//! the outcome of the custody transfer are handed in as plain values.

pub mod address;
pub mod address_set;
pub mod bridge_controller;
pub mod lock_vault;
pub mod relayer_registry;
pub mod swap_router;
pub mod uint;

pub use address::Address;
pub use bridge_controller::BridgeController;
pub use lock_vault::LockVault;
pub use relayer_registry::RelayerRegistry;
pub use uint::{U256, U512};
