pub mod close;
pub mod create;
pub mod update;
pub mod withdraw;
