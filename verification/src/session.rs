//! The course of one sharing session: reserve the port, make the server
//! reachable as far as the router allows, serve until interrupted, and give
//! the port mapping back.
//!
//! The controller decides and its caller acts: each [`SessionAction`] names one
//! thing to do, and the [`SessionEvent`] that follows tells how it went.

use crate::endpoint::{Endpoint, Ipv4};
use crate::gateway::{
    GatewayCoordinator,
    GatewayError,
    GatewayState,
    MappingRequest,
    PortMapping,
    Protocol,
};
use crate::registry::FileRegistry;
use vstd::prelude::*;

verus! {

/// How long the router is asked to keep the mapping, in seconds: one day.
pub const LEASE_SECONDS: u32 = 3600 * 24;

/// The name under which the mapping is entered on the router.
pub const DESCRIPTION: &'static str = "transfert";

/// Where the session stands.
#[derive(Clone, Copy, Debug, PartialEq, Eq, Structural)]
pub enum SessionPhase {
    /// Nothing has been done.
    Created,
    /// The socket is being reserved.
    Binding,
    /// The machine's address on the local network is being looked up.
    Locating,
    /// The router is being searched or asked; the coordinator knows which.
    Forwarding,
    /// The server runs.
    Serving,
    /// The router has been asked to remove the mapping.
    TearingDown,
    /// The session is over.
    Stopped,
    /// The session could not start.
    Failed,
}

/// What happened outside.
#[derive(Clone, Copy, Debug, PartialEq, Eq)]
pub enum SessionEvent {
    /// The session is to begin.
    Start,
    /// The socket is reserved and listens on `port`.
    Bound { port: u16 },
    /// The socket could not be reserved.
    BindFailed,
    /// The machine's address on the local network, if it has one.
    LocalAddress { ip: Option<Ipv4> },
    /// The search for a router has ended.
    GatewaySearched { found: bool },
    /// The router granted `external_port`, or no mapping.
    PortMapped { external_port: Option<u16> },
    /// The router told its external address, or did not.
    ExternalIp { ip: Option<Ipv4> },
    /// The operator interrupted the session.
    Interrupted,
    /// The server ended by itself.
    ServerExited,
    /// The router was asked to remove the mapping; `ok` tells whether it did.
    PortRemoved { ok: bool },
}

/// What to do outside.
#[derive(Clone, Copy, Debug, PartialEq, Eq)]
pub enum SessionAction {
    /// Reserve a socket on `port`; on port 0 the system picks one.
    Bind { port: u16 },
    /// Look up the machine's address on the local network.
    FindLocalAddress,
    /// Search the local network for a router, from `bind`.
    SearchGateway { bind: Endpoint },
    /// Ask the router for a mapping to `local`.
    AddAnyPort { request: MappingRequest, local: Endpoint },
    /// Ask the router for its external address.
    QueryExternalIp,
    /// Tell the user where the server is reached and run it. `fallback` says
    /// why it is reached from the local network only, where that is so.
    Serve { announce: Endpoint, fallback: Option<GatewayError> },
    /// Ask the router to remove `mapping`.
    RemovePort { mapping: PortMapping },
    /// End the process.
    Exit,
    /// End the process: the session could not start.
    Abort,
    /// Nothing: the event was not awaited.
    Ignore,
}

/// One sharing session.
#[derive(Debug)]
pub struct Session {
    /// The port that the user asked for, if any.
    pub requested_port: Option<u16>,
    /// Whether the router is to be asked for a mapping.
    pub port_forward: bool,
    /// The files that are shared.
    pub registry: FileRegistry,
    pub phase: SessionPhase,
    /// The port on which the server listens, once the socket is reserved.
    pub internal_port: Option<u16>,
    /// The machine's address on the local network, once it is known.
    pub local_ip: Option<Ipv4>,
    /// The owner of the port mapping, once the internal port is known.
    pub gateway: Option<GatewayCoordinator>,
    /// Where the server is reached from outside, once the router has granted
    /// a mapping and told its address.
    pub external_endpoint: Option<Endpoint>,
}

impl Session {
    /// The session as it starts.
    pub open spec fn initial(
        requested_port: Option<u16>,
        port_forward: bool,
        registry: FileRegistry,
    ) -> Session {
        Session {
            requested_port,
            port_forward,
            registry,
            phase: SessionPhase::Created,
            internal_port: None,
            local_ip: None,
            gateway: None,
            external_endpoint: None,
        }
    }

    /// The session in another phase.
    pub open spec fn in_phase(self, phase: SessionPhase) -> Session {
        Session { phase, ..self }
    }

    /// The session with another coordinator.
    pub open spec fn with_gateway(self, gateway: GatewayCoordinator) -> Session {
        Session { gateway: Some(gateway), ..self }
    }

    /// The address on the local network at which the server listens: the
    /// machine's address where it is known, the machine itself where not.
    pub open spec fn local_endpoint(self) -> Endpoint {
        Endpoint {
            ip: match self.local_ip {
                Some(ip) => ip,
                None => Ipv4::loopback(),
            },
            port: match self.internal_port {
                Some(port) => port,
                None => 0,
            },
        }
    }

    /// The address that the user is told: the external one where there is
    /// one, the local one in its place.
    pub open spec fn announced(self) -> Endpoint {
        match self.external_endpoint {
            Some(endpoint) => endpoint,
            None => self.local_endpoint(),
        }
    }

    /// Serving with what has been found out so far.
    pub open spec fn serve(self, fallback: Option<GatewayError>) -> (Session, SessionAction) {
        (
            self.in_phase(SessionPhase::Serving),
            SessionAction::Serve { announce: self.announced(), fallback },
        )
    }

    /// Whether the session is one that [`Session::new`] and
    /// [`Session::handle`] can give. The internal port is known before there
    /// is a coordinator, and the coordinator maps that port; the server does
    /// not run before the negotiation has ended one way or the other.
    pub open spec fn wf(self) -> bool {
        &&& self.gateway matches Some(gateway) ==> {
            &&& self.internal_port == Some(gateway.internal_port)
            &&& self.local_ip is Some
            &&& gateway.protocol == Protocol::Tcp
            &&& gateway.lease_seconds == LEASE_SECONDS
            &&& gateway.description == DESCRIPTION
        }
        &&& self.external_endpoint matches Some(endpoint) ==> self.gateway matches Some(gateway)
            && gateway.mapping_of() matches Some(mapping) && endpoint.port
            == mapping.external_port
        &&& match self.phase {
            SessionPhase::Created | SessionPhase::Binding => self.internal_port is None
                && self.gateway is None,
            SessionPhase::Locating => self.internal_port is Some && self.gateway is None,
            SessionPhase::Forwarding => self.gateway matches Some(gateway) && (gateway.state
                is Discovering || gateway.state is Negotiating || gateway.state is Mapped)
                && self.external_endpoint is None,
            SessionPhase::Serving => self.internal_port is Some && (self.gateway matches Some(
                gateway,
            ) ==> gateway.state is Mapped || gateway.state is Unmapped),
            SessionPhase::TearingDown => self.gateway matches Some(gateway) && gateway.state
                is TornDown,
            SessionPhase::Stopped | SessionPhase::Failed => true,
        }
    }

    /// The session after `event`, and what is to be done next. An event that
    /// the phase does not await changes nothing and asks for nothing.
    pub open spec fn step(self, event: SessionEvent) -> (Session, SessionAction) {
        match (self.phase, event) {
            (SessionPhase::Created, SessionEvent::Start) => (
                self.in_phase(SessionPhase::Binding),
                SessionAction::Bind {
                    port: match self.requested_port {
                        Some(port) => port,
                        None => 0,
                    },
                },
            ),
            (SessionPhase::Binding, SessionEvent::Bound { port }) => {
                let bound = Session { internal_port: Some(port), ..self };
                if self.port_forward {
                    (bound.in_phase(SessionPhase::Locating), SessionAction::FindLocalAddress)
                } else {
                    bound.serve(None)
                }
            },
            (SessionPhase::Binding, SessionEvent::BindFailed) => (
                self.in_phase(SessionPhase::Failed),
                SessionAction::Abort,
            ),
            (SessionPhase::Locating, SessionEvent::LocalAddress { ip: Some(ip) }) => {
                match self.internal_port {
                    Some(internal_port) => (
                        Session {
                            local_ip: Some(ip),
                            gateway: Some(
                                GatewayCoordinator {
                                    protocol: Protocol::Tcp,
                                    internal_port,
                                    lease_seconds: LEASE_SECONDS,
                                    description: DESCRIPTION,
                                    state: GatewayState::Discovering,
                                },
                            ),
                            phase: SessionPhase::Forwarding,
                            ..self
                        },
                        SessionAction::SearchGateway { bind: Endpoint { ip, port: 0 } },
                    ),
                    None => (self, SessionAction::Ignore),
                }
            },
            (SessionPhase::Locating, SessionEvent::LocalAddress { ip: None }) => self.serve(
                Some(GatewayError::GatewayNotFound),
            ),
            (SessionPhase::Forwarding, SessionEvent::GatewaySearched { found }) => {
                match self.gateway {
                    Some(gateway) if gateway.state is Discovering => if found {
                        (
                            self.with_gateway(gateway.with_state(GatewayState::Negotiating)),
                            SessionAction::AddAnyPort {
                                request: gateway.request_of(),
                                local: self.local_endpoint(),
                            },
                        )
                    } else {
                        self.with_gateway(gateway.with_state(GatewayState::Unmapped)).serve(
                            Some(GatewayError::GatewayNotFound),
                        )
                    },
                    _ => (self, SessionAction::Ignore),
                }
            },
            (SessionPhase::Forwarding, SessionEvent::PortMapped { external_port }) => {
                match self.gateway {
                    Some(gateway) if gateway.state is Negotiating => match external_port {
                        Some(external_port) => (
                            self.with_gateway(
                                gateway.with_state(GatewayState::Mapped { external_port }),
                            ),
                            SessionAction::QueryExternalIp,
                        ),
                        None => self.with_gateway(
                            gateway.with_state(GatewayState::Unmapped),
                        ).serve(Some(GatewayError::NegotiationFailed)),
                    },
                    _ => (self, SessionAction::Ignore),
                }
            },
            (SessionPhase::Forwarding, SessionEvent::ExternalIp { ip }) => {
                match (self.gateway, ip) {
                    (
                        Some(GatewayCoordinator { state: GatewayState::Mapped { external_port }, .. }),
                        Some(ip),
                    ) => (Session {
                        external_endpoint: Some(Endpoint { ip, port: external_port }),
                        ..self
                    }).serve(None),
                    (
                        Some(GatewayCoordinator { state: GatewayState::Mapped { .. }, .. }),
                        None,
                    ) => self.serve(Some(GatewayError::ExternalIpUnavailable)),
                    _ => (self, SessionAction::Ignore),
                }
            },
            (SessionPhase::Serving, SessionEvent::Interrupted) => {
                match self.gateway {
                    Some(gateway) => match gateway.mapping_of() {
                        Some(mapping) => (
                            Session {
                                gateway: Some(gateway.torn_down()),
                                external_endpoint: None,
                                phase: SessionPhase::TearingDown,
                                ..self
                            },
                            SessionAction::RemovePort { mapping },
                        ),
                        None => (
                            self.with_gateway(gateway.torn_down()).in_phase(SessionPhase::Stopped),
                            SessionAction::Exit,
                        ),
                    },
                    None => (self.in_phase(SessionPhase::Stopped), SessionAction::Exit),
                }
            },
            (SessionPhase::Serving, SessionEvent::ServerExited) => (
                self.in_phase(SessionPhase::Stopped),
                SessionAction::Exit,
            ),
            (SessionPhase::TearingDown, SessionEvent::PortRemoved { .. }) => (
                self.in_phase(SessionPhase::Stopped),
                SessionAction::Exit,
            ),
            _ => (self, SessionAction::Ignore),
        }
    }

    /// A session that shares `registry`, on `requested_port` or on a port of
    /// the system's choosing, with or without a port mapping.
    pub fn new(requested_port: Option<u16>, port_forward: bool, registry: FileRegistry) -> (session:
        Session)
        ensures
            session == Session::initial(requested_port, port_forward, registry),
            session.wf(),
    {
        Session {
            requested_port,
            port_forward,
            registry,
            phase: SessionPhase::Created,
            internal_port: None,
            local_ip: None,
            gateway: None,
            external_endpoint: None,
        }
    }

    /// The address on the local network at which the server listens.
    pub fn local(&self) -> (endpoint: Endpoint)
        ensures
            endpoint == self.local_endpoint(),
    {
        Endpoint {
            ip: match self.local_ip {
                Some(ip) => ip,
                None => Ipv4::localhost(),
            },
            port: match self.internal_port {
                Some(port) => port,
                None => 0,
            },
        }
    }

    /// The address that the user is told.
    pub fn announce(&self) -> (endpoint: Endpoint)
        ensures
            endpoint == self.announced(),
    {
        match self.external_endpoint {
            Some(endpoint) => endpoint,
            None => self.local(),
        }
    }

    fn start_serving(&mut self, fallback: Option<GatewayError>) -> (action: SessionAction)
        ensures
            (*final(self), action) == old(self).serve(fallback),
    {
        self.phase = SessionPhase::Serving;
        SessionAction::Serve { announce: self.announce(), fallback }
    }

    /// Takes note of `event` and says what to do next.
    pub fn handle(&mut self, event: SessionEvent) -> (action: SessionAction)
        ensures
            (*final(self), action) == old(self).step(event),
            old(self).wf() ==> final(self).wf(),
    {
        match (self.phase, event) {
            (SessionPhase::Created, SessionEvent::Start) => {
                self.phase = SessionPhase::Binding;
                SessionAction::Bind {
                    port: match self.requested_port {
                        Some(port) => port,
                        None => 0,
                    },
                }
            },
            (SessionPhase::Binding, SessionEvent::Bound { port }) => {
                self.internal_port = Some(port);
                if self.port_forward {
                    self.phase = SessionPhase::Locating;
                    SessionAction::FindLocalAddress
                } else {
                    self.start_serving(None)
                }
            },
            (SessionPhase::Binding, SessionEvent::BindFailed) => {
                self.phase = SessionPhase::Failed;
                SessionAction::Abort
            },
            (SessionPhase::Locating, SessionEvent::LocalAddress { ip: Some(ip) }) => {
                match self.internal_port {
                    Some(internal_port) => {
                        let mut gateway = GatewayCoordinator::new(
                            Protocol::Tcp,
                            internal_port,
                            LEASE_SECONDS,
                            DESCRIPTION,
                        );
                        gateway.discover();
                        self.local_ip = Some(ip);
                        self.gateway = Some(gateway);
                        self.phase = SessionPhase::Forwarding;
                        SessionAction::SearchGateway { bind: Endpoint { ip, port: 0 } }
                    },
                    None => SessionAction::Ignore,
                }
            },
            (SessionPhase::Locating, SessionEvent::LocalAddress { ip: None }) => {
                self.start_serving(Some(GatewayError::GatewayNotFound))
            },
            (SessionPhase::Forwarding, SessionEvent::GatewaySearched { found }) => {
                match self.gateway {
                    Some(mut gateway) => {
                        if let GatewayState::Discovering = gateway.state {
                            let answer = gateway.discovered(found);
                            self.gateway = Some(gateway);
                            match answer {
                                Ok(request) => SessionAction::AddAnyPort {
                                    request,
                                    local: self.local(),
                                },
                                Err(error) => self.start_serving(Some(error)),
                            }
                        } else {
                            SessionAction::Ignore
                        }
                    },
                    None => SessionAction::Ignore,
                }
            },
            (SessionPhase::Forwarding, SessionEvent::PortMapped { external_port }) => {
                match self.gateway {
                    Some(mut gateway) => {
                        if let GatewayState::Negotiating = gateway.state {
                            let answer = gateway.negotiated(external_port);
                            self.gateway = Some(gateway);
                            match answer {
                                Ok(_) => SessionAction::QueryExternalIp,
                                Err(error) => self.start_serving(Some(error)),
                            }
                        } else {
                            SessionAction::Ignore
                        }
                    },
                    None => SessionAction::Ignore,
                }
            },
            (SessionPhase::Forwarding, SessionEvent::ExternalIp { ip }) => {
                match self.gateway {
                    Some(gateway) => {
                        if let GatewayState::Mapped { .. } = gateway.state {
                            match gateway.external_ip(ip) {
                                Ok(endpoint) => {
                                    self.external_endpoint = Some(endpoint);
                                    self.start_serving(None)
                                },
                                Err(error) => self.start_serving(Some(error)),
                            }
                        } else {
                            SessionAction::Ignore
                        }
                    },
                    None => SessionAction::Ignore,
                }
            },
            (SessionPhase::Serving, SessionEvent::Interrupted) => {
                match self.gateway {
                    Some(mut gateway) => {
                        let removal = gateway.teardown();
                        self.gateway = Some(gateway);
                        match removal {
                            Some(mapping) => {
                                self.external_endpoint = None;
                                self.phase = SessionPhase::TearingDown;
                                SessionAction::RemovePort { mapping }
                            },
                            None => {
                                self.phase = SessionPhase::Stopped;
                                SessionAction::Exit
                            },
                        }
                    },
                    None => {
                        self.phase = SessionPhase::Stopped;
                        SessionAction::Exit
                    },
                }
            },
            (SessionPhase::Serving, SessionEvent::ServerExited) => {
                self.phase = SessionPhase::Stopped;
                SessionAction::Exit
            },
            (SessionPhase::TearingDown, SessionEvent::PortRemoved { .. }) => {
                self.phase = SessionPhase::Stopped;
                SessionAction::Exit
            },
            _ => SessionAction::Ignore,
        }
    }
}

/// The session after `events`, one after the other, and what it asked for at
/// each.
pub open spec fn run(session: Session, events: Seq<SessionEvent>) -> (Session, Seq<SessionAction>)
    decreases events.len(),
{
    if events.len() == 0 {
        (session, Seq::empty())
    } else {
        let (before, actions) = run(session, events.drop_last());
        let (after, action) = before.step(events.last());
        (after, actions.push(action))
    }
}

/// Whether the session has left the server behind for good.
pub open spec fn winding_down(session: Session) -> bool {
    session.phase is TearingDown || session.phase is Stopped
}

/// Each event keeps the session well formed and leaves alone what was fixed
/// before it: the files, what the user asked for, the internal port once the
/// socket is reserved. A mapping is asked for that port and no other.
pub proof fn lemma_step_keeps(session: Session, event: SessionEvent)
    requires
        session.wf(),
    ensures
        session.step(event).0.wf(),
        session.step(event).0.registry == session.registry,
        session.step(event).0.requested_port == session.requested_port,
        session.step(event).0.port_forward == session.port_forward,
        session.internal_port is Some ==> session.step(event).0.internal_port
            == session.internal_port,
        session.step(event).1 matches SessionAction::AddAnyPort { request, local }
            ==> session.internal_port == Some(request.internal_port) && local.port
            == request.internal_port,
{
}

/// An interrupt while the server runs asks the router to remove the mapping
/// exactly where the coordinator holds one, and that mapping; where it holds
/// none, the session ends without a word to the router.
pub proof fn lemma_interrupt(session: Session)
    requires
        session.phase is Serving,
    ensures
        match session.gateway {
            Some(gateway) => match gateway.mapping_of() {
                Some(mapping) => session.step(SessionEvent::Interrupted).1
                    == (SessionAction::RemovePort { mapping }),
                None => session.step(SessionEvent::Interrupted).1 == SessionAction::Exit,
            },
            None => session.step(SessionEvent::Interrupted).1 == SessionAction::Exit,
        },
        winding_down(session.step(SessionEvent::Interrupted).0),
{
}

/// Where the router refuses the mapping, the session serves all the same and
/// tells the address on the local network, with the internal port.
pub proof fn lemma_refusal_serves_locally(session: Session)
    requires
        session.wf(),
        session.phase is Forwarding,
        session.gateway.unwrap().state is Negotiating,
    ensures
        session.step(SessionEvent::PortMapped { external_port: None }).0.phase is Serving,
        session.step(SessionEvent::PortMapped { external_port: None }).0.gateway.unwrap().state
            is Unmapped,
        session.step(SessionEvent::PortMapped { external_port: None }).1
            == (SessionAction::Serve {
            announce: Endpoint {
                ip: session.local_ip.unwrap(),
                port: session.internal_port.unwrap(),
            },
            fallback: Some(GatewayError::NegotiationFailed),
        }),
{
}

/// Whatever fails on the way to the router, the session comes to serve: each
/// answer that tells of a failure leads to the server, announced at the local
/// address.
pub proof fn lemma_fallback_serves_locally(session: Session, event: SessionEvent)
    requires
        session.wf(),
        session.step(event).1 matches SessionAction::Serve { fallback: Some(_), .. },
    ensures
        session.step(event).0.phase is Serving,
        session.step(event).1 matches SessionAction::Serve { announce, .. } && announce
            == session.step(event).0.local_endpoint() && Some(announce.port)
            == session.internal_port,
{
}

/// Whatever happens to a session from its start, it stays well formed, and
/// every mapping that it asks for is one to the port on which the server
/// listens, then and ever after.
pub proof fn lemma_run_keeps(
    requested_port: Option<u16>,
    port_forward: bool,
    registry: FileRegistry,
    events: Seq<SessionEvent>,
)
    ensures
        run(Session::initial(requested_port, port_forward, registry), events).0.wf(),
        run(Session::initial(requested_port, port_forward, registry), events).0.registry
            == registry,
        forall|i: int|
            0 <= i < run(Session::initial(requested_port, port_forward, registry), events).1.len()
                ==> ((#[trigger] run(
                Session::initial(requested_port, port_forward, registry),
                events,
            ).1[i]) matches SessionAction::AddAnyPort { request, .. } ==> run(
                Session::initial(requested_port, port_forward, registry),
                events,
            ).0.internal_port == Some(request.internal_port)),
    decreases events.len(),
{
    if events.len() > 0 {
        let start = Session::initial(requested_port, port_forward, registry);
        lemma_run_keeps(requested_port, port_forward, registry, events.drop_last());
        lemma_step_keeps(run(start, events.drop_last()).0, events.last());
    }
}

/// Once the router has been asked to remove the mapping, the session is
/// winding down; a session that is winding down stays so and asks for no
/// removal.
proof fn lemma_run_winds_down(session: Session, events: Seq<SessionEvent>)
    ensures
        run(session, events).1.len() == events.len(),
        winding_down(session) ==> winding_down(run(session, events).0),
        forall|i: int|
            0 <= i < events.len() && (#[trigger] run(session, events).1[i]) is RemovePort
                ==> winding_down(run(session, events).0),
        forall|i: int, j: int|
            0 <= i < j < events.len() ==> !((#[trigger] run(session, events).1[i]) is RemovePort
                && (#[trigger] run(session, events).1[j]) is RemovePort),
    decreases events.len(),
{
    if events.len() > 0 {
        lemma_run_winds_down(session, events.drop_last());
    }
}

/// However often the session is interrupted, and whatever else happens, the
/// router is asked at most once to remove the mapping.
pub proof fn lemma_teardown_at_most_once(session: Session, events: Seq<SessionEvent>)
    ensures
        forall|i: int, j: int|
            0 <= i < j < run(session, events).1.len() ==> !((#[trigger] run(session, events).1[i])
                is RemovePort && (#[trigger] run(session, events).1[j]) is RemovePort),
{
    lemma_run_winds_down(session, events);
}

} // verus!
