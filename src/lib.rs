//! Peer-to-peer session and state synchronisation for a two-role arcade shooter.
//!
//! - `entities`: ships and bullets in a fixed-point model, their motion and damage;
//! - `network`: the messages between nodes and their byte layout;
//! - `directory`: the addresses a node knows and its replicas of remote ships;
//! - `states`: the session of one node, its phases and the steps of a tick.
pub mod directory;
pub mod entities;
pub mod network;
pub mod states;
