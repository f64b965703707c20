pub mod activity;
pub mod time;
