//! Outbound traffic-routing policy for a destination inside a service-mesh
//! data plane: the per-destination route collection, the policy snapshot, and
//! the discovery contract by which consumers obtain and observe policy.

pub mod discovery;
pub mod net;
pub mod outbound;
pub mod route_map;
pub mod routes;
pub mod units;
