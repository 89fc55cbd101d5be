pub mod asset;
pub mod druid;
pub mod transaction;
