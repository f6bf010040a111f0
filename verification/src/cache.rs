pub mod entry;
pub mod layer;
pub mod logic;
pub mod store;
