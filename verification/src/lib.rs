pub mod api;
pub mod application;
pub mod apub;
pub mod config;
pub mod content;
pub mod delivery;
pub mod domain;
pub mod ext;
pub mod handlers;
pub mod ids;
pub mod inbox;
pub mod models;
pub mod pagination;
pub mod policy;
pub mod privacy;
pub mod queue;
pub mod remote;
pub mod repository;
pub mod render;
pub mod services;
pub mod signature;
pub mod signing;
pub mod text;
pub mod user_service;
pub mod user_spec;
pub mod users;
pub mod utils;
