pub mod error;
pub mod idset;
pub mod laws;
pub mod model;
pub mod names;
pub mod raw;
pub mod record;
pub mod registry;
pub mod render;
pub mod schema;
pub mod store;
pub mod stream;
pub mod text;
pub mod value;
