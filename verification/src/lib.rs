pub mod conf;
pub mod coordinator;
pub mod custom_errors;
pub mod dispatch;
pub mod extract;
pub mod helper;
pub mod normalize;
pub mod runner;
pub mod sanitize;
pub mod text;
pub mod validate;
pub mod zip_reader;
