//! Integer core of a simulated population of energy-constrained neurons:
//! static topology, population composition, the refractory fire-decision
//! state machine and the synchronous, index-keyed exchange of output signals.
pub mod nenv;
pub mod network;
pub mod topology;

pub use nenv::{FiringState, NeuronType};
pub use network::Network;
pub use topology::ConnectivityType;
