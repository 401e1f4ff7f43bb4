//! Identity and session core: accounts, session tokens and the
//! confirmation (code + token) lifecycle, over a transactional store.

pub mod api;
pub mod auth_token;
pub mod confirmation;
pub mod device;
pub mod encoding;
pub mod errors;
pub mod guarantees;
pub mod model;
pub mod store;
pub mod transaction;
pub mod user;
pub mod utils;
pub mod validation;

