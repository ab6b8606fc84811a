//! The fixed values the service runs with, and the one value it reads from
//! its surroundings.

use vstd::prelude::*;
use vstd::string::StringExecFns;

verus! {

/// Name of the environment variable that holds the database connection URI.
pub const DATABASE_URL_VAR: &'static str = "DATABASE_URL";

/// Connection URI used when the variable is not set: a local server on the
/// standard port.
pub const DEFAULT_DATABASE_URL: &'static str = "mongodb://localhost:27017";

/// The database that the service talks to.
pub const DATABASE_NAME: &'static str = "instanttexte";

/// The collection that receives the test records.
pub const COLLECTION_NAME: &'static str = "test_collection";

/// Path of the greeting endpoint.
pub const ROOT_PATH: &'static str = "/";

/// Path of the test-write endpoint.
pub const TEST_DB_PATH: &'static str = "/test-db";

/// The listener binds every interface.
pub const LISTEN_IP: [u8; 4] = [0, 0, 0, 0];

/// The listener's port.
pub const LISTEN_PORT: u16 = 8000;

/// Picks the connection URI. `configured` is what the environment holds
/// under [`DATABASE_URL_VAR`], `None` where it holds nothing usable.
pub fn database_url(configured: Option<String>) -> (url: String)
    ensures
        configured matches Some(uri) ==> url@ == uri@,
        configured is None ==> url@ == DEFAULT_DATABASE_URL@,
{
    match configured {
        Some(uri) => uri,
        None => String::from_str(DEFAULT_DATABASE_URL),
    }
}

} // verus!
