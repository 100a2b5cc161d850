pub mod daemon;
pub mod read_arguments;
