use vstd::prelude::*;

mod handlers;
mod hashing;
mod models;
mod store;
mod token;

pub use handlers::create_user_status;
pub use handlers::delete_user_status;
pub use handlers::get_user_status;
pub use handlers::list_users_status;
pub use handlers::merge_user_update;
pub use handlers::merged_field;
pub use handlers::update_request;
pub use handlers::update_user_status;
pub use hashing::bcrypt_hash_shaped;
pub use hashing::bcrypt_matches;
pub use hashing::bcrypt_parses;
pub use hashing::prepare_create;
pub use models::Claims;
pub use models::NewUser;
pub use models::RepoError;
pub use models::User;
pub use store::authenticate_user;
pub use store::contains_id;
pub use store::first_email_match;
pub use store::has_email;
pub use store::ids_unique;
pub use store::lemma_delete_removes_id;
pub use store::lemma_id_pins_record;
pub use store::lemma_stored_record_hash_not_plaintext;
pub use store::row_hashed;
pub use store::UserStore;
pub use store::LOGIN_EXPIRY;
pub use token::decode_token_claims;
pub use token::decodes_jwt;
pub use token::jwt_of;
pub use token::lemma_issued_token_decodes;
