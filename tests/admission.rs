use conn_gate::acceptor::{Acceptor, Action, Event, Phase};
use conn_gate::admission::{
    admit_step, count_after_admit, count_after_release, release_step, AdmissionController,
    SlotGuard,
};
use conn_gate::config::ServerConfig;
use conn_gate::server::Server;

#[test]
fn default_config_values() {
    let c = ServerConfig::default();
    assert_eq!(c.ip, "127.0.0.1");
    assert_eq!(c.port, 6379);
    assert_eq!(c.max_connections, 100);
}

#[test]
fn address_of_default_config() {
    assert_eq!(ServerConfig::default().address(), "127.0.0.1:6379");
}

#[test]
fn address_edge_ports() {
    let mut c = ServerConfig { ip: "0.0.0.0".to_string(), port: 0, max_connections: 1 };
    assert_eq!(c.address(), "0.0.0.0:0");
    c.port = 65535;
    assert_eq!(c.address(), "0.0.0.0:65535");
    c.port = 10;
    assert_eq!(c.address(), "0.0.0.0:10");
}

#[test]
fn steps_on_observed_counts() {
    assert_eq!(admit_step(0, 2), Some(1));
    assert_eq!(admit_step(1, 2), Some(2));
    assert_eq!(admit_step(2, 2), None);
    assert_eq!(admit_step(0, 0), None);
    assert_eq!(release_step(3), Some(2));
    assert_eq!(release_step(1), Some(0));
    assert_eq!(release_step(0), None);
}

#[test]
fn two_admitted_third_waits_for_a_release() {
    let gate = AdmissionController::new(2);
    let (a, n) = gate.try_admit();
    assert!(a.is_some());
    assert_eq!(n, 1);
    let (b, n) = gate.try_admit();
    assert!(b.is_some());
    assert_eq!(n, 2);
    let (c, n) = gate.try_admit();
    assert!(c.is_none());
    assert_eq!(n, 2);
    assert_eq!(gate.active(), 2);
    assert_eq!(a.unwrap().release(), 1);
    let (d, n) = gate.try_admit();
    assert!(d.is_some());
    assert_eq!(n, 2);
    assert_eq!(d.unwrap().admitted_count(), 2);
    assert_eq!(b.unwrap().release(), 1);
}

#[test]
fn zero_limit_admits_nothing() {
    let gate = AdmissionController::new(0);
    let (p, n) = gate.try_admit();
    assert!(p.is_none());
    assert_eq!(n, 0);
    assert_eq!(gate.active(), 0);
    assert_eq!(gate.max_connections(), 0);
}

#[test]
fn cycles_leave_counter_at_zero() {
    let gate = AdmissionController::new(3);
    for _ in 0..50 {
        let (p, n) = gate.try_admit();
        assert_eq!(n, 1);
        assert_eq!(p.unwrap().release(), 0);
    }
    assert_eq!(gate.active(), 0);
}

#[test]
fn guard_releases_exactly_once() {
    let gate = AdmissionController::new(1);
    let (p, _) = gate.try_admit();
    let mut guard = SlotGuard::new(p.unwrap());
    assert_eq!(gate.active(), 1);
    assert_eq!(guard.release(), Some(0));
    assert_eq!(guard.release(), None);
    assert_eq!(gate.active(), 0);
}

#[test]
fn concurrent_admissions_stay_within_limit() {
    let rt = tokio::runtime::Builder::new_multi_thread().worker_threads(4).build().unwrap();
    let gate = std::sync::Arc::new(AdmissionController::new(4));
    let mut handles = Vec::new();
    for _ in 0..8 {
        let g = std::sync::Arc::clone(&gate);
        handles.push(rt.spawn_blocking(move || {
            for _ in 0..1000 {
                let (p, n) = g.try_admit();
                assert!(n <= 4);
                if let Some(p) = p {
                    assert!(n >= 1);
                    let after = p.release();
                    assert!(after < 4);
                }
            }
        }));
    }
    for h in handles {
        rt.block_on(h).unwrap();
    }
    assert_eq!(gate.active(), 0);
}

#[test]
fn shutdown_reports_in_flight_and_stops_admitting() {
    let gate = AdmissionController::new(5);
    let mut acceptor = Acceptor::new();
    let mut permits = Vec::new();
    for _ in 0..3 {
        match acceptor.on_event(Event::Connection, &gate) {
            Action::Admit(p) => permits.push(p),
            _ => panic!("connection not admitted"),
        }
    }
    assert!(matches!(acceptor.on_event(Event::Shutdown, &gate), Action::Stop { final_count: 3 }));
    assert_eq!(acceptor.current_phase(), Phase::Stopped);
    assert!(matches!(acceptor.on_event(Event::Connection, &gate), Action::Ignore));
    assert!(matches!(acceptor.on_event(Event::Shutdown, &gate), Action::Ignore));
    assert_eq!(gate.active(), 3);
    for p in permits {
        p.release();
    }
    assert_eq!(gate.active(), 0);
}

#[test]
fn failed_accept_resumes() {
    let gate = AdmissionController::new(1);
    let mut acceptor = Acceptor::new();
    assert!(matches!(acceptor.on_event(Event::AcceptFailed, &gate), Action::Resume));
    assert_eq!(acceptor.current_phase(), Phase::Listening);
    assert_eq!(gate.active(), 0);
}

#[test]
fn single_slot_end_to_end() {
    let server = Server::new(ServerConfig {
        ip: "127.0.0.1".to_string(),
        port: 0,
        max_connections: 1,
    });
    let gate = server.admission();
    let mut acceptor = server.acceptor();
    let a = match acceptor.on_event(Event::Connection, gate) {
        Action::Admit(p) => p,
        _ => panic!("client A not admitted"),
    };
    assert_eq!(a.admitted_count(), 1);
    assert!(matches!(acceptor.on_event(Event::Connection, gate), Action::Reject { active: 1 }));
    assert_eq!(a.release(), 0);
    let c = match acceptor.on_event(Event::Connection, gate) {
        Action::Admit(p) => p,
        _ => panic!("client C not admitted"),
    };
    assert_eq!(c.admitted_count(), 1);
    assert!(matches!(acceptor.on_event(Event::Shutdown, gate), Action::Stop { final_count: 1 }));
    assert_eq!(acceptor.current_phase(), Phase::Stopped);
    assert_eq!(c.release(), 0);
}

#[test]
fn server_keeps_config_and_reports_zero() {
    let server = Server::new(ServerConfig::default());
    assert_eq!(server.config().port, 6379);
    assert_eq!(server.config().max_connections, 100);
    assert_eq!(server.admission().max_connections(), 100);
    assert_eq!(server.shutdown(), 0);
}

#[test]
fn counts_after_updates() {
    assert_eq!(count_after_admit(Ok(0)), 1);
    assert_eq!(count_after_admit(Ok(41)), 42);
    assert_eq!(count_after_admit(Err(7)), 7);
    assert_eq!(count_after_release(Ok(1)), 0);
    assert_eq!(count_after_release(Ok(9)), 8);
    assert_eq!(count_after_release(Err(0)), 0);
}
