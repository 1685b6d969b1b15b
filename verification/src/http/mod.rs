pub mod articles;
pub mod error;
pub mod extractor;
pub mod profiles;
pub mod types;
pub mod users;

pub use error::{on_constraint, Error};
