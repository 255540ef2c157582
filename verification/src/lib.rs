//! Resource-selection core of a distributed block-storage control plane.
//!
//! The library decides where new replicas are placed, which replicas become
//! nexus children, and which child or replica to drop when shrinking or
//! repairing a volume.  It holds the transport value types those decisions
//! speak about, the policy filters and rankings, and the concurrent cache of
//! the latest observed resource state.

pub mod errors;
pub mod ids;
pub mod io_engine;
pub mod nexus;
pub mod pool;
pub mod resource_map;
pub mod scheduling;
pub mod states;
pub mod text;
