pub mod cors;
pub mod json;
pub mod mapper;
pub mod routes;
