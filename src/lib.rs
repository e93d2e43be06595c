//! Client-side logic for provisioning ephemeral databases: referrer
//! validation, request identifiers and the target URLs of the requests.
pub mod error;
pub mod laws;
pub mod referrer;
pub mod request_id;
pub mod url;

pub use error::InstagresError;
pub use url::{base_url_with_id, create_url, create_url_with_id, get_base_url};
