pub mod tools;
pub mod request;
pub mod response;
pub mod laws;
pub mod client;
