//! Verified core of a WebSocket chat and notification service: error
//! classification, record and key construction, query planning, response
//! interpretation, and the decision flows of the service's request handlers.

pub mod auth;
pub mod errors;
pub mod flows;
pub mod utils;
pub mod item;
pub mod keys;
pub mod types;
pub mod chat;
pub mod connection;
pub mod presence;
pub mod management;
pub mod subscription;
pub mod membership;
pub mod notification;
