//! Interactive OAuth2 login with PKCE for a command line tool.
//!
//! The library holds every decision of the login flow: deriving the PKCE pair,
//! composing the authorization URL and the token request, the life cycle of the
//! loopback callback listener, the reading of the token endpoint's reply, and
//! the rules of token persistence. Network and file access are left to the
//! caller, which performs the actions the library asks for and reports back
//! what happened.

use vstd::prelude::*;

pub mod auth;
pub mod paths;

pub use paths::{default_auth_path, default_config_path};
