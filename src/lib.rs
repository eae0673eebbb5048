pub mod db;
pub mod laws;
pub mod model;
pub mod orientation;
pub mod store;
