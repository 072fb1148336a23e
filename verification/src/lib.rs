//! Authentication and ownership-authorization core for a multi-tenant
//! resource-sharing backend: credential hashing and verification, signed
//! session tokens, session-derived authorization, and ownership-scoped
//! partial updates of stored records.

mod config;
mod credential;
mod errors;
mod resources;
mod session;
mod token;
mod users;

pub use config::Config;
pub use config::DEFAULT_SERVER_PORT;
pub use credential::bcrypt_accepts;
pub use credential::credential_round_trip;
pub use credential::hash;
pub use credential::verify;
pub use errors::AuthError;
pub use resources::CreateResourceRequest;
pub use resources::CreatedResourceResponse;
pub use resources::Resource;
pub use resources::UpdateResourceRequest;
pub use resources::create_resource;
pub use resources::delete_resource;
pub use resources::foreign_update_is_denied;
pub use resources::fresh_resource_id;
pub use resources::has_owned;
pub use resources::lemma_foreign_mutation_denied;
pub use resources::lemma_owner_mutation_allowed;
pub use resources::owned_row;
pub use resources::resolve_create_defaults;
pub use resources::resource_patched;
pub use resources::update_resource;
pub use resources::wf_resources;
pub use session::AuthSession;
pub use session::authenticate;
pub use session::authorize_mutation;
pub use session::mutation_outcome;
pub use session::session_from_claims;
pub use token::Claims;
pub use token::ClaimsView;
pub use token::SESSION_LIFETIME_SECS;
pub use token::TokenIssuer;
pub use token::claims_of;
pub use token::decoded_claims;
pub use token::issued_token_expires;
pub use token::issued_token_validates;
pub use token::minted_claims;
pub use token::token_of;
pub use users::LoginRequest;
pub use users::LoginResponse;
pub use users::RegisterRequest;
pub use users::UpdateUserRequest;
pub use users::User;
pub use users::email_taken_by_other;
pub use users::find_user_by_email;
pub use users::find_user_by_id;
pub use users::fresh_user_id;
pub use users::has_email;
pub use users::has_user_id;
pub use users::lemma_login_failure_uniform;
pub use users::login;
pub use users::login_rejects;
pub use users::register;
pub use users::update_user;
pub use users::user_patched;
pub use users::wf_users;
