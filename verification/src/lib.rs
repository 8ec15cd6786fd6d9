pub mod api;
pub mod config;
pub mod query;
pub mod sdo_geometry;
pub mod style;
