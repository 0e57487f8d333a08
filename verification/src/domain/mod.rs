pub mod factory;
pub mod model;
pub mod service;
