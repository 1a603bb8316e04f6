pub mod accounts;
pub mod common;
