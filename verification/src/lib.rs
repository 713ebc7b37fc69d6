//! Session-authenticated broadcast core of a small live message board.
//!
//! The library covers the registry of live push connections and its
//! fan-out/pruning algorithm, the session lifecycle that identifies a
//! visitor and gates writes, and the request pipeline that coordinates
//! validation, authorization, persistence and broadcasting.

pub mod errors;
pub mod message;
pub mod pipeline;
pub mod session;
pub mod user;
pub mod validators;
pub mod websocket;
