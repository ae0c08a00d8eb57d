pub mod laws;
pub mod record;
pub mod store;

pub use record::{DataKey, StoredData};
pub use store::{SimpleStorageContract, UpdateError};
