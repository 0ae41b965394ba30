//! The storage engine, from the stack up to the apply pass.

pub mod container;
pub mod engine;
pub mod error;
pub mod laws;
pub mod notify;
pub mod pass;
pub mod protocol;
pub mod registry;
pub mod stack;
pub mod transfer;

pub use container::ContainerState;
pub use container::Inventory;
pub use error::InventoryError;
pub use notify::LoggedChange;
pub use pass::apply_inventory_requests;
pub use pass::apply_request;
pub use pass::PassOutput;
pub use pass::RequestOutcome;
pub use protocol::InventoryAction;
pub use protocol::InventoryChanged;
pub use protocol::InventoryHandle;
pub use protocol::InventoryRequest;
pub use protocol::InventoryResult;
pub use protocol::InventoryRole;
pub use protocol::OwnerId;
pub use protocol::SlotChange;
pub use registry::build_inventory;
pub use registry::InventoryRegistry;
pub use stack::ItemId;
pub use stack::ItemStack;
pub use transfer::plan_transfer;
pub use transfer::Transfer;
