//! Typed configuration for ticket accounts: the schema, the grade-list field
//! parser, the schema decoder over a canonical document, and the loader that
//! turns the text of a configuration file into a `Config`.

pub mod decode;
pub mod document;
pub mod formats;
pub mod grades;
pub mod loader;
pub mod schema;

pub use decode::FromDocument;
pub use document::{Document, Field};
pub use grades::{deserialize_array_usize, FieldFormatError};
pub use loader::{
    load_config, load_global_config, try_load_config, try_load_global_config, LoadFailure,
    GLOBAL_CONFIG_PATH,
};
pub use schema::{Account, Config, Entity, Monitor, SchemaDecodeFailure, Sessions, Slot, Ticket};
