pub mod driver_core;
pub mod driver_resources;
