pub mod config;
pub mod ids;
pub mod records;
pub mod session;
pub mod timestamps;
pub mod error;
pub mod utils;
pub mod auth_handler;
pub mod password_handler;
pub mod email_service;
pub mod register_handler;
pub mod vars;
