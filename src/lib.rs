pub mod bus;
pub mod cc2500;
pub mod chip;
pub mod config;
pub mod laws;
