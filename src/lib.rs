//! Schema-driven source generation: from a description of database tables,
//! the text of a model module, a CRUD route module and a session bootstrap.

pub mod text;
pub mod schema;
pub mod naming;
pub mod fields;
pub mod models;
pub mod api;
pub mod config_parse;

pub use config_parse::ConfigParser;
pub use schema::{default_version, Column, ColumnDataType, Conf, LoadError, RawTable, Table};
