pub mod addr;
pub mod errors;
pub mod events;
pub mod state;
pub mod profile;
pub mod store;
