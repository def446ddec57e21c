use rpcbinder::error::RpcError;
use rpcbinder::fdmode::{negotiate, FileDescriptorTransportMode};
use rpcbinder::lifecycle::LifecycleState;
use rpcbinder::registry::Direction;
use rpcbinder::server::{AdmitOutcome, RpcServer, ServiceHandle};
use rpcbinder::transport::{
    inet_address_valid, BindOutcome, OwnedDescriptor, SetupOutcome, VMADDR_CID_ANY,
    VMADDR_CID_LOCAL, VMADDR_PORT_ANY,
};

fn ready_server() -> RpcServer {
    match RpcServer::new_bound_socket(
        ServiceHandle::new(7),
        OwnedDescriptor::new(10),
        SetupOutcome::Ready,
    ) {
        Ok(s) => s,
        Err(_) => panic!("setup reported ready"),
    }
}

#[test]
fn vsock_concrete_port_is_returned() {
    let r = RpcServer::new_vsock(
        ServiceHandle::new(1),
        VMADDR_CID_ANY,
        VMADDR_PORT_ANY,
        BindOutcome::Bound { assigned_port: 5001 },
    );
    match r {
        Ok((server, port)) => {
            assert_eq!(port, 5001);
            assert_ne!(port, VMADDR_PORT_ANY);
            assert_eq!(server.state, LifecycleState::Configured);
            assert_eq!(server.pool.max_threads, 1);
        }
        Err(_) => panic!("a bound outcome with a concrete port must construct"),
    }
}

#[test]
fn vsock_local_cid_with_chosen_port() {
    let r = RpcServer::new_vsock(
        ServiceHandle::new(2),
        VMADDR_CID_LOCAL,
        77,
        BindOutcome::Bound { assigned_port: 77 },
    );
    match r {
        Ok((_, port)) => assert_eq!(port, 77),
        Err(_) => panic!("a bound outcome with a concrete port must construct"),
    }
}

#[test]
fn vsock_failed_bind_is_construction_failure() {
    let r = RpcServer::new_vsock(ServiceHandle::new(1), VMADDR_CID_ANY, 80, BindOutcome::Failed);
    match r {
        Ok(_) => panic!("a failed bind must not construct"),
        Err(e) => assert_eq!(e, RpcError::ConstructionFailure),
    }
}

#[test]
fn vsock_never_reports_wildcard_port() {
    let r = RpcServer::new_vsock(
        ServiceHandle::new(1),
        VMADDR_CID_ANY,
        VMADDR_PORT_ANY,
        BindOutcome::Bound {
            assigned_port: VMADDR_PORT_ANY,
        },
    );
    match r {
        Ok(_) => panic!("a wildcard assigned port must not construct"),
        Err(e) => assert_eq!(e, RpcError::ConstructionFailure),
    }
}

#[test]
fn inet_embedded_nul_is_invalid_input() {
    let r = RpcServer::new_inet(ServiceHandle::new(3), "127.0.0.1\0x", 8080, SetupOutcome::Ready);
    match r {
        Ok(_) => panic!("an address with NUL must be rejected"),
        Err(e) => assert_eq!(e, RpcError::InvalidInput),
    }
}

#[test]
fn inet_embedded_nul_rejected_for_every_outcome() {
    let r = RpcServer::new_inet(ServiceHandle::new(3), "\0", 8080, SetupOutcome::Failed);
    match r {
        Ok(_) => panic!("an address with NUL must be rejected"),
        Err(e) => assert_eq!(e, RpcError::InvalidInput),
    }
}

#[test]
fn inet_address_validity_check() {
    assert!(inet_address_valid("::1"));
    assert!(inet_address_valid(""));
    assert!(!inet_address_valid("a\0b"));
    assert!(!inet_address_valid("\0"));
}

#[test]
fn inet_valid_address_constructs() {
    let r = RpcServer::new_inet(ServiceHandle::new(3), "0.0.0.0", 8080, SetupOutcome::Ready);
    match r {
        Ok(s) => assert_eq!(s.state, LifecycleState::Configured),
        Err(_) => panic!("a valid address with a ready transport must construct"),
    }
}

#[test]
fn inet_failed_setup_is_construction_failure() {
    let r = RpcServer::new_inet(ServiceHandle::new(3), "0.0.0.0", 8080, SetupOutcome::Failed);
    match r {
        Ok(_) => panic!("a failed setup must not construct"),
        Err(e) => assert_eq!(e, RpcError::ConstructionFailure),
    }
}

#[test]
fn bound_socket_failed_setup_is_construction_failure() {
    let r = RpcServer::new_bound_socket(
        ServiceHandle::new(4),
        OwnedDescriptor::new(9),
        SetupOutcome::Failed,
    );
    match r {
        Ok(_) => panic!("a failed setup must not construct"),
        Err(e) => assert_eq!(e, RpcError::ConstructionFailure),
    }
}

#[test]
fn unix_domain_bootstrap_constructs() {
    let r = RpcServer::new_unix_domain_bootstrap(
        ServiceHandle::new(5),
        OwnedDescriptor::new(11),
        SetupOutcome::Ready,
    );
    match r {
        Ok(s) => assert_eq!(s.state, LifecycleState::Configured),
        Err(_) => panic!("a ready bootstrap pair must construct"),
    }
}

#[test]
fn shutdown_is_idempotent() {
    let mut s = ready_server();
    s.start();
    assert_eq!(s.shutdown(true), Ok(()));
    assert_eq!(s.state, LifecycleState::ShuttingDown);
    assert_eq!(s.shutdown(true), Ok(()));
    assert_eq!(s.shutdown(false), Ok(()));
    assert_eq!(s.state, LifecycleState::ShuttingDown);
    s.complete_shutdown();
    assert_eq!(s.state, LifecycleState::Terminated);
    assert_eq!(s.shutdown(true), Ok(()));
    assert_eq!(s.state, LifecycleState::Terminated);
}

#[test]
fn shutdown_before_start_is_allowed() {
    let mut s = ready_server();
    assert_eq!(s.shutdown(true), Ok(()));
    assert_eq!(s.state, LifecycleState::ShuttingDown);
}

#[test]
fn shutdown_halt_failure_is_reported_once() {
    let mut s = ready_server();
    s.start();
    assert_eq!(s.shutdown(false), Err(RpcError::ShutdownFailure));
    assert_eq!(s.state, LifecycleState::ShuttingDown);
    assert_eq!(s.shutdown(false), Ok(()));
}

#[test]
fn join_returns_only_after_termination() {
    let mut s = ready_server();
    s.start();
    assert!(!s.join());
    let out = s.session_accepted(OwnedDescriptor::new(20), &Vec::new());
    let id = match out {
        AdmitOutcome::Admitted(id) => id,
        AdmitOutcome::Refused(_) => panic!("an idle single worker must admit"),
    };
    assert_eq!(s.shutdown(true), Ok(()));
    assert!(!s.join());
    let d = match s.session_closed(id) {
        Some(d) => d,
        None => panic!("the session was live"),
    };
    assert_eq!(d.into_raw(), 20);
    s.complete_shutdown();
    assert!(s.join());
}

#[test]
fn single_threaded_server_is_sequential() {
    let mut s = ready_server();
    s.start();
    match s.session_accepted(OwnedDescriptor::new(21), &Vec::new()) {
        AdmitOutcome::Admitted(_) => {}
        AdmitOutcome::Refused(_) => panic!("the first session must be admitted"),
    }
    match s.session_accepted(OwnedDescriptor::new(22), &Vec::new()) {
        AdmitOutcome::Admitted(_) => panic!("one worker must not service two sessions"),
        AdmitOutcome::Refused(d) => assert_eq!(d.into_raw(), 22),
    }
}

#[test]
fn wider_pool_admits_up_to_its_bound() {
    let mut s = ready_server();
    s.set_max_threads(2);
    s.start();
    let first = match s.session_accepted(OwnedDescriptor::new(30), &Vec::new()) {
        AdmitOutcome::Admitted(id) => id,
        AdmitOutcome::Refused(_) => panic!("worker one was idle"),
    };
    match s.session_accepted(OwnedDescriptor::new(31), &Vec::new()) {
        AdmitOutcome::Admitted(_) => {}
        AdmitOutcome::Refused(_) => panic!("worker two was idle"),
    }
    match s.open_callback_session(OwnedDescriptor::new(32), &Vec::new()) {
        AdmitOutcome::Admitted(_) => panic!("both workers were busy"),
        AdmitOutcome::Refused(d) => assert_eq!(d.into_raw(), 32),
    }
    let d = match s.session_closed(first) {
        Some(d) => d,
        None => panic!("the first session was live"),
    };
    assert_eq!(d.into_raw(), 30);
    match s.open_callback_session(OwnedDescriptor::new(33), &Vec::new()) {
        AdmitOutcome::Admitted(_) => {}
        AdmitOutcome::Refused(_) => panic!("a worker came free"),
    }
}

#[test]
fn callback_sessions_are_recorded_outbound() {
    let mut s = ready_server();
    s.set_max_threads(2);
    s.start();
    match s.session_accepted(OwnedDescriptor::new(40), &Vec::new()) {
        AdmitOutcome::Admitted(_) => {}
        AdmitOutcome::Refused(_) => panic!("worker one was idle"),
    }
    match s.open_callback_session(OwnedDescriptor::new(41), &Vec::new()) {
        AdmitOutcome::Admitted(_) => {}
        AdmitOutcome::Refused(_) => panic!("worker two was idle"),
    }
    assert_eq!(s.registry.sessions[0].direction, Direction::Inbound);
    assert_eq!(s.registry.sessions[1].direction, Direction::Outbound);
}

#[test]
fn no_admission_before_start_or_after_shutdown() {
    let mut s = ready_server();
    match s.session_accepted(OwnedDescriptor::new(50), &Vec::new()) {
        AdmitOutcome::Admitted(_) => panic!("nothing runs before start"),
        AdmitOutcome::Refused(d) => assert_eq!(d.into_raw(), 50),
    }
    s.start();
    assert_eq!(s.shutdown(true), Ok(()));
    match s.session_accepted(OwnedDescriptor::new(51), &Vec::new()) {
        AdmitOutcome::Admitted(_) => panic!("nothing is admitted while shutting down"),
        AdmitOutcome::Refused(d) => assert_eq!(d.into_raw(), 51),
    }
}

#[test]
fn session_identities_are_never_reused() {
    let mut s = ready_server();
    s.set_max_threads(3);
    s.start();
    let a = match s.session_accepted(OwnedDescriptor::new(60), &Vec::new()) {
        AdmitOutcome::Admitted(id) => id,
        AdmitOutcome::Refused(_) => panic!("admitted"),
    };
    let b = match s.session_accepted(OwnedDescriptor::new(61), &Vec::new()) {
        AdmitOutcome::Admitted(id) => id,
        AdmitOutcome::Refused(_) => panic!("admitted"),
    };
    assert!(s.session_closed(a).is_some());
    let c = match s.session_accepted(OwnedDescriptor::new(62), &Vec::new()) {
        AdmitOutcome::Admitted(id) => id,
        AdmitOutcome::Refused(_) => panic!("admitted"),
    };
    assert_ne!(a, b);
    assert_ne!(b, c);
    assert_ne!(a, c);
    assert_eq!(s.registry.ids(), vec![b, c]);
}

#[test]
fn closing_an_unknown_session_changes_nothing() {
    let mut s = ready_server();
    s.start();
    assert!(s.session_closed(12345).is_none());
    assert_eq!(s.registry.sessions.len(), 0);
}

#[test]
fn exhausted_identities_refuse_admission() {
    let mut s = ready_server();
    s.start();
    s.registry.next_id = u64::MAX;
    match s.session_accepted(OwnedDescriptor::new(55), &Vec::new()) {
        AdmitOutcome::Admitted(_) => panic!("no fresh identity was available"),
        AdmitOutcome::Refused(d) => assert_eq!(d.into_raw(), 55),
    }
}

#[test]
fn lifecycle_predicates_follow_the_states() {
    assert!(!LifecycleState::Configured.is_accepting());
    assert!(LifecycleState::Started.is_accepting());
    assert!(LifecycleState::Running.is_accepting());
    assert!(!LifecycleState::ShuttingDown.is_accepting());
    assert!(!LifecycleState::Configured.is_shutting_down());
    assert!(LifecycleState::ShuttingDown.is_shutting_down());
    assert!(LifecycleState::Terminated.is_shutting_down());
}

#[test]
fn negotiation_picks_first_offered_advertised_mode() {
    let advertised = vec![
        FileDescriptorTransportMode::Ancillary,
        FileDescriptorTransportMode::MemoryFile,
    ];
    let offered = vec![
        FileDescriptorTransportMode::MemoryFile,
        FileDescriptorTransportMode::Ancillary,
    ];
    assert_eq!(
        negotiate(&advertised, &offered),
        FileDescriptorTransportMode::MemoryFile
    );
}

#[test]
fn negotiation_falls_back_to_baseline() {
    let advertised = vec![FileDescriptorTransportMode::Ancillary];
    let offered = vec![FileDescriptorTransportMode::MemoryFile];
    assert_eq!(
        negotiate(&advertised, &offered),
        FileDescriptorTransportMode::NoPassing
    );
    assert_eq!(
        negotiate(&advertised, &Vec::new()),
        FileDescriptorTransportMode::NoPassing
    );
}

#[test]
fn sessions_use_the_negotiated_mode() {
    let mut s = ready_server();
    s.set_supported_file_descriptor_transport_modes(&[FileDescriptorTransportMode::Ancillary]);
    s.start();
    let offered = vec![
        FileDescriptorTransportMode::MemoryFile,
        FileDescriptorTransportMode::Ancillary,
    ];
    match s.session_accepted(OwnedDescriptor::new(70), &offered) {
        AdmitOutcome::Admitted(_) => {}
        AdmitOutcome::Refused(_) => panic!("admitted"),
    }
    assert_eq!(
        s.registry.sessions[0].mode,
        FileDescriptorTransportMode::Ancillary
    );
}

#[test]
fn mode_list_is_copied_at_call_time() {
    let mut s = ready_server();
    let mut modes = vec![FileDescriptorTransportMode::MemoryFile];
    s.set_supported_file_descriptor_transport_modes(&modes);
    modes.clear();
    assert_eq!(
        s.advertised_modes,
        vec![FileDescriptorTransportMode::MemoryFile]
    );
}

#[test]
fn drain_terminates_and_returns_every_descriptor() {
    let mut s = ready_server();
    s.set_max_threads(3);
    s.start();
    for fd in [80, 81, 82] {
        match s.session_accepted(OwnedDescriptor::new(fd), &Vec::new()) {
            AdmitOutcome::Admitted(_) => {}
            AdmitOutcome::Refused(_) => panic!("three workers were idle"),
        }
    }
    assert_eq!(s.shutdown(true), Ok(()));
    let fds: Vec<i32> = s.drain_and_terminate().into_iter().map(|d| d.into_raw()).collect();
    assert_eq!(fds, vec![80, 81, 82]);
    assert_eq!(s.state, LifecycleState::Terminated);
    assert!(s.join());
    assert_eq!(s.registry.sessions.len(), 0);
}

#[test]
fn terminated_server_surrenders_its_descriptor() {
    let mut s = ready_server();
    s.start();
    assert_eq!(s.shutdown(true), Ok(()));
    s.complete_shutdown();
    assert_eq!(s.registry.sessions.len(), 0);
    match s.into_endpoint_descriptor() {
        Some(d) => assert_eq!(d.into_raw(), 10),
        None => panic!("a bound-socket server owns its listener descriptor"),
    }
}

#[test]
fn inet_server_owns_no_endpoint_descriptor() {
    let mut s = match RpcServer::new_inet(ServiceHandle::new(3), "::", 80, SetupOutcome::Ready) {
        Ok(s) => s,
        Err(_) => panic!("constructs"),
    };
    assert_eq!(s.shutdown(true), Ok(()));
    s.complete_shutdown();
    assert!(s.into_endpoint_descriptor().is_none());
}
