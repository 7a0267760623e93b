pub mod token_valid;
