//! Session store and feature-lifecycle coordinator for an iterative game-design
//! workflow.
//!
//! A session holds the design brief, the features planned so far and the
//! implementation reports submitted for them. A designer model proposes the
//! next feature and accepts or rejects reports. Everything here is pure: each
//! operation is split into a step that decides what to send to the designer
//! model and a step that applies what came back, so that the caller owns every
//! suspension point (network, disk) and the library owns every decision.

pub mod game_design;
pub mod transport;
pub mod tools;
