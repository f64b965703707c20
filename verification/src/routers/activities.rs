pub mod insert;
pub mod members;
pub mod read;
pub mod remove;
pub mod update;
