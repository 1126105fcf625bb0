pub mod client;
pub mod error;
pub mod history;
pub mod mode;
pub mod request;
