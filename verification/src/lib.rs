//! A connector that welds the rigid body of one scene object to the rigid body
//! of another with a fixed joint kept in a rapier joint set.
//!
//! The connector caches two anchor points and two reference frames, creates the
//! joint on request, pushes later changes of the cached values into the live
//! joint, and removes the joint again when asked to or when its owner goes away.

pub mod connector;
pub mod error;
pub mod geometry;
pub mod joint;
pub mod laws;
pub mod objects;
pub mod registry;
pub mod world;
