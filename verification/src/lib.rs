pub mod decimal;
pub mod error;
pub mod ids;
pub mod migrations;
pub mod queries;
pub mod schema;
pub mod sql;
pub mod text;

pub use error::DbError;
