pub mod activities;
pub mod attendances;
pub mod exports;
pub mod groups;
pub mod notifications;
pub mod response;
pub mod users;
pub mod volunteers;
