pub mod record;
pub mod transaction;
