pub mod types;
pub mod embedding;
pub mod tools;
pub mod stream;
pub mod client;
