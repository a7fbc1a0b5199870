mod data_stores;
mod email;
mod email_client;
mod error;
mod password;
mod user;

pub use data_stores::attempt_id_char_ok;
pub use data_stores::attempt_id_valid;
pub use data_stores::is_dec_digit;
pub use data_stores::is_hex_digit;
pub use data_stores::two_fa_code_valid;
pub use data_stores::BannedTokenStoreError;
pub use data_stores::LoginAttemptId;
pub use data_stores::TwoFACode;
pub use data_stores::TwoFACodeStoreError;
pub use data_stores::UserStoreError;
pub use email::at_sign_count;
pub use email::email_accepted;
pub use email::email_local_char_ok;
pub use email::email_local_ok;
pub use email::email_shape_ok;
pub use email::email_split_ok;
pub use email::newline_free;
pub use email::email_valid;
pub use email::Email;
pub use email::EmailError;
pub use email_client::EmailClient;
pub use error::AuthAPIError;
pub use password::Password;
pub use password::PasswordError;
pub use user::User;
pub use user::UserV;
