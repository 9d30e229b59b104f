pub mod response;
pub mod strutil;
pub mod json;
pub mod fallible;
pub mod routes;
