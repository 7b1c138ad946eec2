//! The plain data of the service's RPC surface.
//!
//! The transport itself — sockets, health reporting, the async runtime —
//! belongs to the surrounding service; here stand the request and response
//! records it exchanges and the handles it builds on.

use vstd::prelude::*;

verus! {

/// A request to confirm one parcel's delivery: the parcel and the
/// itinerary it was booked under.
#[derive(Clone, Debug)]
pub struct CargoConfirmationRequest {
    /// The itinerary's identifier.
    pub itinerary_id: String,
    /// The parcel's identifier.
    pub parcel_id: String,
}

/// The outcome of a confirmation request.
#[derive(Clone, Copy, Debug, PartialEq, Eq, Structural)]
pub struct CargoConfirmationResponse {
    /// Whether the notification was accepted for delivery.
    pub success: bool,
}

/// The collaborator connections one request works with; the surrounding
/// service opens them.
#[derive(Clone, Debug)]
pub struct GrpcClients {}

impl Default for GrpcClients {
    /// Creates default clients.
    fn default() -> (r: GrpcClients)
        ensures
            r == (GrpcClients {  }),
    {
        GrpcClients {  }
    }
}

/// The RPC service implementation the surrounding service mounts.
#[derive(Clone, Copy, Debug)]
pub struct ServerImpl {}

impl Default for ServerImpl {
    fn default() -> (r: ServerImpl)
        ensures
            r == (ServerImpl {  }),
    {
        ServerImpl {  }
    }
}

} // verus!
