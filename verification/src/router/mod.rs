pub mod circuit_breaker;
pub mod breaker_laws;
pub mod routing;
pub mod routing_laws;
