//! Sign-in through Logto (OpenID Connect) and scope-based authorization.
//!
//! The sign-in is written as steps from a state and an event to the next state
//! and an action; the actions are carried out by the program around the library.

pub mod access_laws;
pub mod auth_state;
pub mod callback;
pub mod discovery;
pub mod encoding;
pub mod flow_laws;
pub mod id_check;
pub mod json;
pub mod jwks;
pub mod letter_case;
pub mod login;
pub mod meta;
pub mod permission_laws;
pub mod pkce;
pub mod registry_laws;
pub mod reply;
pub mod scope_laws;
pub mod scope_store;
pub mod scopes;
pub mod session;
pub mod session_laws;
pub mod text;
pub mod text_laws;
pub mod tokens;
pub mod url_laws;
pub mod urls;
pub mod users;
pub mod view_laws;
