//! Stateless bearer-token authentication with version-based revocation.
//!
//! Tokens are signed with HMAC-SHA-512 and carry a small set of claims. A
//! refresh token is tied to a per-user counter: raising the counter makes every
//! refresh token issued before it worthless, without any stored token list.

pub mod claims;
pub mod clock;
pub mod codec;
pub mod error;
pub mod event;
pub mod issuer;
pub mod key;
pub mod revocation;
pub mod session;
pub mod validator;

pub use claims::Claims;
pub use error::AuthError;
pub use event::{
    delete_event, get_event_by_id, get_events_by_class, get_events_by_class_filtered_after,
    get_events_by_class_filtered_both, insert_event, update_event,
};
pub use issuer::{create_normal_jwt, create_other_jwt, create_refresh_jwt, Lifetimes};
pub use key::{DecodingKey, EncodingKey};
pub use validator::validate_token;
