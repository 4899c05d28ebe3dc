//! The HTTP interface of the agent: authentication of callers, the shapes of
//! requests and responses, and the decisions of each route.

pub mod auth;
pub mod dto;
pub mod routes;
