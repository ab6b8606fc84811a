//! The decisions of a small web service that greets its callers and writes one
//! test record to a document database on request.
//!
//! The service itself (sockets, the database session, the environment) lives
//! around this library. Here are the values it is configured with, the record
//! it writes, the text of every reply and log line, and the order of its
//! startup, each with a contract.

pub mod config;
pub mod document;
pub mod handlers;
pub mod outcome;
pub mod startup;

pub use config::database_url;
pub use document::{new_test_document, ping_command, test_document};
pub use handlers::{root, test_db, Reply};
pub use outcome::{InsertOutcome, InsertedId};
pub use startup::{LogLine, Stage, Startup, StepResult, Stream};
