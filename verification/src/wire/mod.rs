pub mod http;
pub mod encoding;
pub mod responses;
pub mod responses_request;
pub mod endpoint;
pub mod session;
pub mod client;
