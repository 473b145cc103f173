//! Verified decision logic of the public Runtrol Runtime endpoint: integration authority,
//! boot-local catalogue cursors, the single-owner control ledger, and the request boundary.

pub mod kinds;
pub mod text;
pub mod auth;
pub mod crypto;
pub mod wire;
pub mod cursor;
pub mod control;
pub mod mutation;
pub mod inventory;
pub mod catalogue;
pub mod activity;
pub mod serve;
pub mod audit;
pub mod handshake;
pub mod relay;
pub mod models;
pub mod capabilities;
pub mod open;
pub mod forget;
pub mod locator;
