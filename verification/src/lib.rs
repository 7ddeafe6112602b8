//! Verified core of a client and Home Assistant bridge for Hunter Douglas
//! PowerView Gen 3 hubs.
pub mod text;
pub mod types;
pub mod sse;
pub mod order;
pub mod hub;
pub mod hass;
pub mod bridge;
pub mod events;
pub mod table;
pub mod commands;
