pub mod transaction_validator;
