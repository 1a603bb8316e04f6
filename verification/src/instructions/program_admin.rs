pub mod add;
pub mod remove;
