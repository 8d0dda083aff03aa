//! Core logic of a Kubernetes controller manager: feature gates, the controller
//! registry, configuration defaults and controller selection, health
//! aggregation and the leader-election decisions.

pub mod config;
pub mod controller;
pub mod controller_context;
pub mod controller_descriptor;
pub mod controller_manager;
pub mod duration_bound;
pub mod feature;
pub mod health;
pub mod leader_election;
pub mod table;
pub mod text;
pub mod time;

pub use config::ControllerManagerConfig;
pub use controller::{ControllerError, FunctionController};
pub use controller_descriptor::{ControllerDescriptor, ControllerRegistry};
pub use feature::{FeatureGate, MemoryFeatureGate};

use vstd::prelude::*;

verus! {

/// Default name for the controller manager.
pub const CONTROLLER_MANAGER_NAME: &'static str = "kube-controller-manager";

} // verus!
