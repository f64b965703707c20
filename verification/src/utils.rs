pub mod config;
pub mod jwt;
pub mod rsa;
pub mod same_class;
pub mod text;
pub mod verify;
