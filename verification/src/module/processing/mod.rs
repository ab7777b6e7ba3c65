pub mod model;
pub mod schema;
