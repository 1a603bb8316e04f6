pub mod close_campaign;
pub mod create_campaign;
