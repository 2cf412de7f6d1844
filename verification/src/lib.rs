pub mod classify;
pub mod config;
pub mod elastic;
pub mod errors;
pub mod health;
pub mod json;
pub mod provision;
pub mod query;
pub mod routing;
