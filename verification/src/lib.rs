//! A room-by-room controller for a system of networked speakers: the
//! topology model, the speaker registry, the zone action dispatcher and the
//! decisions of the controller and of its subscription workers.

pub mod content;
pub mod controller;
pub mod controller_proofs;
pub mod dispatch_proofs;
pub mod error;
pub mod mediasource;
pub mod metadata;
pub mod registry;
pub mod registry_proofs;
pub mod search;
pub mod subscriber;
pub mod text;
pub mod topology;
pub mod types;
pub mod utils;
pub mod worker_proofs;
pub mod xml;
pub mod zoneaction;
pub mod zonegroupstate;
