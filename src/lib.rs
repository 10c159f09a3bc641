//! The persistence layer of a small-business records store: the records it
//! keeps, the schema of the tables that hold them, the statements that read
//! and write clients and settings, and the conversion between records and
//! the rows and statement parameters of those tables.

pub mod client;
pub mod model;
pub mod schema;
pub mod settings;
pub mod value;
