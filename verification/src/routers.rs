pub mod activities;
pub mod auth;
pub mod exports;
pub mod users;
