pub mod logic;
pub mod ports;
pub mod services;
pub mod types;
