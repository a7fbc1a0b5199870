pub mod challenge_generator;
pub mod data_stores;
pub mod hashmap_two_fa_code_store;
pub mod mock_email_client;
pub mod store_model;
pub mod token_service;

pub use hashmap_two_fa_code_store::HashmapTwoFACodeStore;
pub use mock_email_client::MockEmailClient;
