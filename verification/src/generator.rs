pub mod data_generator;
pub mod log_data_generator;
