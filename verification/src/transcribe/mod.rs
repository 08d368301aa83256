pub mod formatting;
pub mod client;
