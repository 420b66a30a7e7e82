use transfert::endpoint::{Endpoint, Ipv4};
use transfert::gateway::{GatewayError, GatewayState, MappingRequest, PortMapping, Protocol};
use transfert::registry::{FileRegistry, FileStat};
use transfert::session::{
    Session, SessionAction, SessionEvent, SessionPhase, DESCRIPTION, LEASE_SECONDS,
};

const LAN: Ipv4 = Ipv4(192, 168, 1, 20);
const WAN: Ipv4 = Ipv4(203, 0, 113, 7);

fn registry() -> FileRegistry {
    FileRegistry::register(&[
        FileStat { path: "a.txt".to_string(), size: Some(10) },
        FileStat { path: "b.bin".to_string(), size: Some(20000) },
    ])
    .unwrap()
}

fn mapping(internal_port: u16, external_port: u16) -> PortMapping {
    PortMapping {
        protocol: Protocol::Tcp,
        internal_port,
        external_port,
        lease_seconds: 86400,
        description: "transfert",
    }
}

/// A session on port 8080 that has asked the router for a mapping.
fn negotiating() -> Session {
    let mut session = Session::new(Some(8080), true, registry());
    session.handle(SessionEvent::Start);
    session.handle(SessionEvent::Bound { port: 8080 });
    session.handle(SessionEvent::LocalAddress { ip: Some(LAN) });
    session.handle(SessionEvent::GatewaySearched { found: true });
    session
}

/// A session that serves behind a granted mapping.
fn serving_mapped() -> Session {
    let mut session = negotiating();
    session.handle(SessionEvent::PortMapped { external_port: Some(40123) });
    session.handle(SessionEvent::ExternalIp { ip: Some(WAN) });
    session
}

fn removals(actions: &[SessionAction]) -> usize {
    actions.iter().filter(|a| matches!(a, SessionAction::RemovePort { .. })).count()
}

#[test]
fn the_terms_of_the_mapping() {
    assert_eq!(LEASE_SECONDS, 86400);
    assert_eq!(DESCRIPTION, "transfert");
}

#[test]
fn a_session_binds_the_requested_port_or_lets_the_system_pick() {
    let mut session = Session::new(Some(8080), false, registry());
    assert_eq!(session.phase, SessionPhase::Created);
    assert_eq!(session.handle(SessionEvent::Start), SessionAction::Bind { port: 8080 });
    assert_eq!(session.phase, SessionPhase::Binding);

    let mut session = Session::new(None, false, registry());
    assert_eq!(session.handle(SessionEvent::Start), SessionAction::Bind { port: 0 });
}

#[test]
fn a_failed_bind_ends_the_session() {
    let mut session = Session::new(Some(80), true, registry());
    session.handle(SessionEvent::Start);
    assert_eq!(session.handle(SessionEvent::BindFailed), SessionAction::Abort);
    assert_eq!(session.phase, SessionPhase::Failed);
    assert_eq!(session.handle(SessionEvent::Start), SessionAction::Ignore);
    assert_eq!(session.handle(SessionEvent::Bound { port: 80 }), SessionAction::Ignore);
}

#[test]
fn without_port_forwarding_the_server_is_announced_on_the_machine_itself() {
    let mut session = Session::new(None, false, registry());
    session.handle(SessionEvent::Start);
    assert_eq!(
        session.handle(SessionEvent::Bound { port: 51234 }),
        SessionAction::Serve {
            announce: Endpoint { ip: Ipv4(127, 0, 0, 1), port: 51234 },
            fallback: None,
        }
    );
    assert_eq!(session.phase, SessionPhase::Serving);
    assert_eq!(session.internal_port, Some(51234));
    assert_eq!(session.gateway, None);
    assert_eq!(session.announce().url(), "http://127.0.0.1:51234");
    assert_eq!(session.handle(SessionEvent::Interrupted), SessionAction::Exit);
    assert_eq!(session.phase, SessionPhase::Stopped);
}

#[test]
fn a_granted_mapping_is_announced_and_removed_on_interrupt() {
    let mut session = Session::new(None, true, registry());
    assert_eq!(session.handle(SessionEvent::Start), SessionAction::Bind { port: 0 });
    assert_eq!(
        session.handle(SessionEvent::Bound { port: 51234 }),
        SessionAction::FindLocalAddress
    );
    assert_eq!(
        session.handle(SessionEvent::LocalAddress { ip: Some(LAN) }),
        SessionAction::SearchGateway { bind: Endpoint { ip: LAN, port: 0 } }
    );
    assert_eq!(
        session.handle(SessionEvent::GatewaySearched { found: true }),
        SessionAction::AddAnyPort {
            request: MappingRequest {
                protocol: Protocol::Tcp,
                internal_port: 51234,
                lease_seconds: 86400,
                description: "transfert",
            },
            local: Endpoint { ip: LAN, port: 51234 },
        }
    );
    assert_eq!(
        session.handle(SessionEvent::PortMapped { external_port: Some(40123) }),
        SessionAction::QueryExternalIp
    );
    assert_eq!(session.phase, SessionPhase::Forwarding);
    assert_eq!(
        session.handle(SessionEvent::ExternalIp { ip: Some(WAN) }),
        SessionAction::Serve { announce: Endpoint { ip: WAN, port: 40123 }, fallback: None }
    );
    assert_eq!(session.phase, SessionPhase::Serving);
    assert_eq!(session.external_endpoint, Some(Endpoint { ip: WAN, port: 40123 }));
    assert_eq!(session.local(), Endpoint { ip: LAN, port: 51234 });
    assert_eq!(session.announce().url(), "http://203.0.113.7:40123");

    assert_eq!(
        session.handle(SessionEvent::Interrupted),
        SessionAction::RemovePort { mapping: mapping(51234, 40123) }
    );
    assert_eq!(session.phase, SessionPhase::TearingDown);
    assert_eq!(session.gateway.unwrap().state, GatewayState::TornDown);
    assert_eq!(session.external_endpoint, None);
    assert_eq!(session.handle(SessionEvent::PortRemoved { ok: true }), SessionAction::Exit);
    assert_eq!(session.phase, SessionPhase::Stopped);
}

#[test]
fn a_refused_mapping_still_serves_on_the_local_network() {
    let mut session = negotiating();
    assert_eq!(
        session.handle(SessionEvent::PortMapped { external_port: None }),
        SessionAction::Serve {
            announce: Endpoint { ip: LAN, port: 8080 },
            fallback: Some(GatewayError::NegotiationFailed),
        }
    );
    assert_eq!(session.phase, SessionPhase::Serving);
    assert_eq!(session.gateway.unwrap().state, GatewayState::Unmapped);
    assert_eq!(session.gateway.unwrap().reported_port(), 8080);
    assert_eq!(session.external_endpoint, None);
    assert_eq!(session.registry.len(), 2);
    assert_eq!(session.handle(SessionEvent::Interrupted), SessionAction::Exit);
    assert_eq!(session.gateway.unwrap().state, GatewayState::TornDown);
}

#[test]
fn without_a_router_the_session_serves_on_the_local_network() {
    let mut session = Session::new(Some(8080), true, registry());
    session.handle(SessionEvent::Start);
    session.handle(SessionEvent::Bound { port: 8080 });
    session.handle(SessionEvent::LocalAddress { ip: Some(LAN) });
    assert_eq!(
        session.handle(SessionEvent::GatewaySearched { found: false }),
        SessionAction::Serve {
            announce: Endpoint { ip: LAN, port: 8080 },
            fallback: Some(GatewayError::GatewayNotFound),
        }
    );
    assert_eq!(session.handle(SessionEvent::Interrupted), SessionAction::Exit);
}

#[test]
fn without_a_local_address_the_session_serves_on_the_machine_itself() {
    let mut session = Session::new(Some(8080), true, registry());
    session.handle(SessionEvent::Start);
    session.handle(SessionEvent::Bound { port: 8080 });
    assert_eq!(
        session.handle(SessionEvent::LocalAddress { ip: None }),
        SessionAction::Serve {
            announce: Endpoint { ip: Ipv4(127, 0, 0, 1), port: 8080 },
            fallback: Some(GatewayError::GatewayNotFound),
        }
    );
    assert_eq!(session.gateway, None);
}

#[test]
fn without_the_external_address_the_mapping_stays_and_the_local_address_is_told() {
    let mut session = negotiating();
    session.handle(SessionEvent::PortMapped { external_port: Some(40123) });
    assert_eq!(
        session.handle(SessionEvent::ExternalIp { ip: None }),
        SessionAction::Serve {
            announce: Endpoint { ip: LAN, port: 8080 },
            fallback: Some(GatewayError::ExternalIpUnavailable),
        }
    );
    assert_eq!(session.gateway.unwrap().mapping(), Some(mapping(8080, 40123)));
    assert_eq!(
        session.handle(SessionEvent::Interrupted),
        SessionAction::RemovePort { mapping: mapping(8080, 40123) }
    );
}

#[test]
fn repeated_interrupts_remove_the_mapping_once() {
    let mut session = serving_mapped();
    let events = [
        SessionEvent::Interrupted,
        SessionEvent::Interrupted,
        SessionEvent::Interrupted,
        SessionEvent::PortRemoved { ok: false },
        SessionEvent::Interrupted,
        SessionEvent::ServerExited,
        SessionEvent::Interrupted,
    ];
    let actions: Vec<SessionAction> = events.iter().map(|e| session.handle(*e)).collect();
    assert_eq!(removals(&actions), 1);
    assert_eq!(
        actions,
        vec![
            SessionAction::RemovePort { mapping: mapping(8080, 40123) },
            SessionAction::Ignore,
            SessionAction::Ignore,
            SessionAction::Exit,
            SessionAction::Ignore,
            SessionAction::Ignore,
            SessionAction::Ignore,
        ]
    );
    assert_eq!(session.phase, SessionPhase::Stopped);
}

#[test]
fn a_failed_removal_still_ends_the_session() {
    let mut session = serving_mapped();
    session.handle(SessionEvent::Interrupted);
    assert_eq!(session.handle(SessionEvent::PortRemoved { ok: false }), SessionAction::Exit);
    assert_eq!(session.phase, SessionPhase::Stopped);
}

#[test]
fn a_server_that_ends_by_itself_leaves_the_mapping_to_its_lease() {
    let mut session = serving_mapped();
    assert_eq!(session.handle(SessionEvent::ServerExited), SessionAction::Exit);
    assert_eq!(session.phase, SessionPhase::Stopped);
    assert_eq!(session.gateway.unwrap().state, GatewayState::Mapped { external_port: 40123 });
    assert_eq!(session.handle(SessionEvent::Interrupted), SessionAction::Ignore);
}

#[test]
fn an_interrupt_before_the_server_runs_is_not_awaited() {
    let mut session = negotiating();
    let before = format!("{:?}", session);
    assert_eq!(session.handle(SessionEvent::Interrupted), SessionAction::Ignore);
    assert_eq!(format!("{:?}", session), before);
}

#[test]
fn answers_out_of_turn_change_nothing() {
    let mut session = negotiating();
    let before = format!("{:?}", session);
    for event in [
        SessionEvent::Start,
        SessionEvent::Bound { port: 1 },
        SessionEvent::BindFailed,
        SessionEvent::LocalAddress { ip: Some(WAN) },
        SessionEvent::GatewaySearched { found: false },
        SessionEvent::ExternalIp { ip: Some(WAN) },
        SessionEvent::ServerExited,
        SessionEvent::PortRemoved { ok: true },
    ] {
        assert_eq!(session.handle(event), SessionAction::Ignore);
        assert_eq!(format!("{:?}", session), before);
    }
    assert_eq!(session.internal_port, Some(8080));
}

#[test]
fn the_internal_port_is_fixed_before_the_router_is_asked() {
    let mut session = Session::new(None, true, registry());
    session.handle(SessionEvent::Start);
    assert_eq!(session.internal_port, None);
    assert_eq!(session.gateway, None);
    session.handle(SessionEvent::Bound { port: 51234 });
    assert_eq!(session.internal_port, Some(51234));
    assert_eq!(session.gateway, None);
    session.handle(SessionEvent::LocalAddress { ip: Some(LAN) });
    assert_eq!(session.gateway.unwrap().internal_port, 51234);
    session.handle(SessionEvent::GatewaySearched { found: true });
    session.handle(SessionEvent::PortMapped { external_port: Some(40123) });
    session.handle(SessionEvent::ExternalIp { ip: Some(WAN) });
    session.handle(SessionEvent::Interrupted);
    session.handle(SessionEvent::PortRemoved { ok: true });
    assert_eq!(session.internal_port, Some(51234));
    assert_eq!(session.gateway.unwrap().internal_port, 51234);
}
