//! URL encoding for tracker communication.
pub mod url;

pub use url::{is_unreserved, url_encode};
