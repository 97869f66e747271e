pub mod admin;
pub mod dispute;
pub mod order;
