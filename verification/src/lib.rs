//! Verified core of the Matrixon homeserver service layer.
//!
//! Each module holds the state and the decisions of one service as plain,
//! synchronous Rust with Verus contracts. Clocks, random identifiers, hashing
//! and encodings come in through small trusted wrappers (see `external`).
#![allow(unused_imports)]

pub mod text;
pub mod strmap;
pub mod error;
pub mod counters;
pub mod bridge;
pub mod external;
pub mod enterprise;
pub mod media;
pub mod globals;
pub mod bots;
pub mod auth;
pub mod federation;
pub mod captcha;

