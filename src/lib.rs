pub mod domain;
pub mod routes;
pub mod services;
pub mod utils;

pub use domain::AuthAPIError;
pub use utils::auth::{Claims, TokenError};
