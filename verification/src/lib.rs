pub mod driver;
pub mod model;
pub mod plan;
pub mod sql;
pub mod sqlite;
pub mod values;
