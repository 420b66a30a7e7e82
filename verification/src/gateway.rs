//! The port mapping on the router: asking for it, falling back where the
//! router does not answer or refuses, and removing it once.
//!
//! The coordinator talks to no router. Its caller searches, asks and removes,
//! and tells the coordinator what the router said.

use crate::endpoint::{Endpoint, Ipv4};
use vstd::prelude::*;

verus! {

/// The transport protocol of a mapping.
#[derive(Clone, Copy, Debug, PartialEq, Eq, Structural)]
pub enum Protocol {
    Tcp,
    Udp,
}

/// What is asked of the router: some free external port, forwarded to
/// `internal_port` for `lease_seconds`.
#[derive(Clone, Copy, Debug, PartialEq, Eq)]
pub struct MappingRequest {
    pub protocol: Protocol,
    pub internal_port: u16,
    pub lease_seconds: u32,
    pub description: &'static str,
}

/// A rule on the router that forwards `external_port` to `internal_port`.
#[derive(Clone, Copy, Debug, PartialEq, Eq)]
pub struct PortMapping {
    pub protocol: Protocol,
    pub internal_port: u16,
    pub external_port: u16,
    pub lease_seconds: u32,
    pub description: &'static str,
}

/// Why the server is not reachable from outside.
#[derive(Clone, Copy, Debug, PartialEq, Eq, Structural)]
pub enum GatewayError {
    /// No router answered the search.
    GatewayNotFound,
    /// The router did not grant a mapping.
    NegotiationFailed,
    /// The router did not tell its external address.
    ExternalIpUnavailable,
}

/// Where the coordinator stands.
#[derive(Clone, Copy, Debug, PartialEq, Eq, Structural)]
pub enum GatewayState {
    /// Nothing has been asked.
    Idle,
    /// The search for a router is under way.
    Discovering,
    /// A router was found and has been asked for a mapping.
    Negotiating,
    /// The router forwards `external_port`.
    Mapped { external_port: u16 },
    /// There is no mapping: no router, or it refused.
    Unmapped,
    /// The session is over; a mapping that there was has been given up.
    TornDown,
}

/// The owner of the session's port mapping.
#[derive(Clone, Copy, Debug, PartialEq, Eq)]
pub struct GatewayCoordinator {
    pub protocol: Protocol,
    pub internal_port: u16,
    pub lease_seconds: u32,
    pub description: &'static str,
    pub state: GatewayState,
}

impl GatewayCoordinator {
    /// The coordinator with another state and the same terms.
    pub open spec fn with_state(self, state: GatewayState) -> GatewayCoordinator {
        GatewayCoordinator {
            protocol: self.protocol,
            internal_port: self.internal_port,
            lease_seconds: self.lease_seconds,
            description: self.description,
            state,
        }
    }

    /// What the coordinator asks of the router.
    pub open spec fn request_of(self) -> MappingRequest {
        MappingRequest {
            protocol: self.protocol,
            internal_port: self.internal_port,
            lease_seconds: self.lease_seconds,
            description: self.description,
        }
    }

    /// The mapping that the coordinator holds, if it holds one.
    pub open spec fn mapping_of(self) -> Option<PortMapping> {
        match self.state {
            GatewayState::Mapped { external_port } => Some(
                PortMapping {
                    protocol: self.protocol,
                    internal_port: self.internal_port,
                    external_port,
                    lease_seconds: self.lease_seconds,
                    description: self.description,
                },
            ),
            _ => None,
        }
    }

    /// The port to tell the user: the external port of the mapping, and the
    /// internal port in its place where there is no mapping.
    pub open spec fn reported_port_of(self) -> u16 {
        match self.state {
            GatewayState::Mapped { external_port } => external_port,
            _ => self.internal_port,
        }
    }

    /// The coordinator after a teardown: where it held a mapping or had gone
    /// without, it is torn down; before that, nothing changes.
    pub open spec fn torn_down(self) -> GatewayCoordinator {
        match self.state {
            GatewayState::Mapped { .. } | GatewayState::Unmapped => self.with_state(
                GatewayState::TornDown,
            ),
            _ => self,
        }
    }

    /// A coordinator for the server that listens on `internal_port`.
    pub fn new(
        protocol: Protocol,
        internal_port: u16,
        lease_seconds: u32,
        description: &'static str,
    ) -> (coordinator: GatewayCoordinator)
        ensures
            coordinator == (GatewayCoordinator {
                protocol,
                internal_port,
                lease_seconds,
                description,
                state: GatewayState::Idle,
            }),
    {
        GatewayCoordinator { protocol, internal_port, lease_seconds, description, state: GatewayState::Idle }
    }

    /// Notes that the search for a router has begun.
    pub fn discover(&mut self)
        requires
            old(self).state is Idle,
        ensures
            *final(self) == old(self).with_state(GatewayState::Discovering),
    {
        self.state = GatewayState::Discovering;
    }

    /// Notes how the search ended. With a router, the answer is what to ask of
    /// it; without one, the coordinator goes on unmapped.
    pub fn discovered(&mut self, found: bool) -> (result: Result<MappingRequest, GatewayError>)
        requires
            old(self).state is Discovering,
        ensures
            found ==> *final(self) == old(self).with_state(GatewayState::Negotiating) && result
                == Ok::<MappingRequest, GatewayError>(old(self).request_of()),
            !found ==> *final(self) == old(self).with_state(GatewayState::Unmapped) && result
                == Err::<MappingRequest, GatewayError>(GatewayError::GatewayNotFound),
    {
        if found {
            self.state = GatewayState::Negotiating;
            Ok(
                MappingRequest {
                    protocol: self.protocol,
                    internal_port: self.internal_port,
                    lease_seconds: self.lease_seconds,
                    description: self.description,
                },
            )
        } else {
            self.state = GatewayState::Unmapped;
            Err(GatewayError::GatewayNotFound)
        }
    }

    /// Notes what the router said to the request: the external port that it
    /// granted, or `None` where it refused or did not answer. A refusal is no
    /// failure of the session: the coordinator goes on unmapped.
    pub fn negotiated(&mut self, granted: Option<u16>) -> (result: Result<
        PortMapping,
        GatewayError,
    >)
        requires
            old(self).state is Negotiating,
        ensures
            granted matches Some(external_port) ==> *final(self) == old(self).with_state(
                GatewayState::Mapped { external_port },
            ) && result == Ok::<PortMapping, GatewayError>(final(self).mapping_of().unwrap()),
            granted is None ==> *final(self) == old(self).with_state(GatewayState::Unmapped)
                && result == Err::<PortMapping, GatewayError>(GatewayError::NegotiationFailed),
            granted is None ==> final(self).reported_port_of() == old(self).internal_port,
    {
        match granted {
            Some(external_port) => {
                self.state = GatewayState::Mapped { external_port };
                Ok(
                    PortMapping {
                        protocol: self.protocol,
                        internal_port: self.internal_port,
                        external_port,
                        lease_seconds: self.lease_seconds,
                        description: self.description,
                    },
                )
            },
            None => {
                self.state = GatewayState::Unmapped;
                Err(GatewayError::NegotiationFailed)
            },
        }
    }

    /// The mapping that the coordinator holds.
    pub fn mapping(&self) -> (mapping: Option<PortMapping>)
        ensures
            mapping == self.mapping_of(),
    {
        match self.state {
            GatewayState::Mapped { external_port } => Some(
                PortMapping {
                    protocol: self.protocol,
                    internal_port: self.internal_port,
                    external_port,
                    lease_seconds: self.lease_seconds,
                    description: self.description,
                },
            ),
            _ => None,
        }
    }

    /// The port to tell the user.
    pub fn reported_port(&self) -> (port: u16)
        ensures
            port == self.reported_port_of(),
    {
        match self.state {
            GatewayState::Mapped { external_port } => external_port,
            _ => self.internal_port,
        }
    }

    /// The address under which the server is reached from outside, given what
    /// the router said of its own address. Whatever it said, the mapping
    /// stays.
    pub fn external_ip(&self, answer: Option<Ipv4>) -> (result: Result<Endpoint, GatewayError>)
        ensures
            result == match (answer, self.state) {
                (Some(ip), GatewayState::Mapped { external_port }) => Ok::<Endpoint, GatewayError>(
                    Endpoint { ip, port: external_port },
                ),
                _ => Err::<Endpoint, GatewayError>(GatewayError::ExternalIpUnavailable),
            },
    {
        match (answer, self.state) {
            (Some(ip), GatewayState::Mapped { external_port }) => Ok(
                Endpoint { ip, port: external_port },
            ),
            _ => Err(GatewayError::ExternalIpUnavailable),
        }
    }

    /// Ends the coordinator's part in the session. The answer is the mapping
    /// to remove from the router: `None` where the coordinator holds none,
    /// and so on every call but the first that finds one.
    pub fn teardown(&mut self) -> (removal: Option<PortMapping>)
        ensures
            removal == old(self).mapping_of(),
            *final(self) == old(self).torn_down(),
    {
        match self.state {
            GatewayState::Mapped { external_port } => {
                self.state = GatewayState::TornDown;
                Some(
                    PortMapping {
                        protocol: self.protocol,
                        internal_port: self.internal_port,
                        external_port,
                        lease_seconds: self.lease_seconds,
                        description: self.description,
                    },
                )
            },
            GatewayState::Unmapped => {
                self.state = GatewayState::TornDown;
                None
            },
            _ => None,
        }
    }
}

/// A teardown without a granted mapping asks nothing of the router.
pub proof fn lemma_teardown_without_mapping(coordinator: GatewayCoordinator)
    requires
        !(coordinator.state is Mapped),
    ensures
        coordinator.mapping_of() is None,
        coordinator.torn_down().mapping_of() is None,
        coordinator.torn_down().internal_port == coordinator.internal_port,
{
}

/// After a teardown there is nothing left to remove: a second teardown asks
/// nothing of the router and changes nothing.
pub proof fn lemma_teardown_once(coordinator: GatewayCoordinator)
    ensures
        coordinator.torn_down().mapping_of() is None,
        coordinator.torn_down().torn_down() == coordinator.torn_down(),
{
}

} // verus!
