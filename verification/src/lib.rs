//! The decision logic of a chat bot that answers `!ping` and looks up
//! catalog entries for `!pal <name>` in an HTTP data service.
//!
//! Nothing in this crate performs I/O. The caller delivers events (a message
//! text, a status code, a response body) and carries out the actions that
//! [`handler::advance`] hands back.
//!
//! - [`command`] recognises the command in a message.
//! - [`query`] builds the URL of a lookup.
//! - [`json`] holds JSON documents as trees; [`schema`] says which trees are
//!   answers of the data service, and [`model`] holds the answers.
//! - [`lookup`] turns a response into a display line or a typed error.
//! - [`handler`] ties them into the handling of one message.

pub mod command;
pub mod handler;
pub mod json;
pub mod lookup;
pub mod model;
pub mod query;
pub mod schema;
pub mod text;

pub use command::{classify, Command};
pub use handler::{advance, Action, Event, Stage};
pub use json::Json;
pub use lookup::{check_status, format_output, interpret, lookup_result, project, LookupError};
pub use model::{APIResponse, Aura, Content, Suitability};
pub use query::{lookup_url, percent_encode, DEFAULT_BASE_URL};
pub use schema::{decode_response, encode_response};
