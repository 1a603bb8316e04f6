pub mod end;
pub mod start;
