use vstd::prelude::*;
use vstd::string::StringSliceAdditionalSpecFns;
use crate::error::RpcError;
use crate::fdmode::{FileDescriptorTransportMode, spec_negotiated, negotiate, lemma_negotiated_is_sound};
use crate::lifecycle::LifecycleState;
use crate::pool::ThreadPool;
use crate::registry::{Direction, Session, SessionRegistry};
use crate::transport::{
    BindOutcome, Endpoint, OwnedDescriptor, SetupOutcome, VMADDR_PORT_ANY, address_bytes,
    contains_nul, inet_address_valid,
};

verus! {

/// The root service object, as the surrounding process identifies it.
///
/// The process keeps the real reference-counted object and hands the server
/// this token for it. The handle is move-only: giving it to a constructor
/// transfers serving authority to the server, and the giver must no longer
/// treat its own references as live for serving purposes.
pub struct ServiceHandle {
    /// The process-chosen identity of the service object.
    pub token: u64,
}

impl ServiceHandle {
    /// Wraps the identity of the service object to be served.
    pub fn new(token: u64) -> (h: ServiceHandle)
        ensures
            h.token == token,
    {
        ServiceHandle { token }
    }
}

/// What admission decided for one incoming or outbound connection.
pub enum AdmitOutcome {
    /// The connection became the session with this identity.
    Admitted(u64),
    /// The server would not take the connection — it is not accepting,
    /// every worker is busy, or identities ran out — and hands the
    /// descriptor back for closing.
    Refused(OwnedDescriptor),
}

/// The server core: one endpoint, one root service, a bounded worker pool, a
/// session registry and the lifecycle state machine.
///
/// The core decides; the surrounding process performs the socket and thread
/// operations and reports their outcomes back as plain values. All methods
/// are meant to be called under one lock on this value, which makes every
/// transition a single authoritative step however many threads drive it.
pub struct RpcServer {
    /// The service object every session dispatches into.
    pub service: ServiceHandle,
    /// The one transport the server is bound to; immutable after
    /// construction.
    pub endpoint: Endpoint,
    /// Where the server stands in its lifecycle.
    pub state: LifecycleState,
    /// The bound on concurrent session service.
    pub pool: ThreadPool,
    /// The live sessions.
    pub registry: SessionRegistry,
    /// The descriptor-passing modes this server advertises beyond the
    /// baseline; copied in before any session exists.
    pub advertised_modes: Vec<FileDescriptorTransportMode>,
}

impl RpcServer {
    /// What construction establishes and every transition preserves.
    pub open spec fn wf(self) -> bool {
        &&& self.endpoint.wf()
        &&& self.pool.wf()
        &&& self.registry.wf()
        &&& self.pool.active == self.registry.sessions@.len()
        &&& (self.state is Configured || self.state is Started) ==> self.registry.sessions@.len()
            == 0
        &&& self.state is Terminated ==> self.registry.sessions@.len() == 0
        &&& forall|i: int|
            0 <= i < self.registry.sessions@.len() ==> (#[trigger] self.registry.sessions@[i]).mode
                == FileDescriptorTransportMode::NoPassing || self.advertised_modes@.contains(
                self.registry.sessions@[i].mode,
            )
    }

    /// Whether the server would admit a session right now: it is accepting,
    /// a worker is idle, and a fresh identity is available.
    pub open spec fn spec_admits(self) -> bool {
        &&& self.state.spec_is_accepting()
        &&& self.pool.spec_has_idle_worker()
        &&& self.registry.spec_has_capacity()
    }

    /// A freshly configured server bound to `endpoint`: single-threaded, no
    /// modes advertised beyond the baseline, no sessions.
    fn from_endpoint(service: ServiceHandle, endpoint: Endpoint) -> (s: RpcServer)
        requires
            endpoint.wf(),
        ensures
            s.wf(),
            s.state is Configured,
            s.service == service,
            s.endpoint == endpoint,
            s.pool.max_threads == 1,
            s.pool.active == 0,
            s.registry.sessions@.len() == 0,
            s.registry.next_id == 0,
            s.advertised_modes@.len() == 0,
    {
        RpcServer {
            service,
            endpoint,
            state: LifecycleState::Configured,
            pool: ThreadPool::new(),
            registry: SessionRegistry::new(),
            advertised_modes: Vec::new(),
        }
    }

    /// Builds a server listening on a vsock context id and port.
    ///
    /// The context id may be the accept-any or local-only sentinel; the port
    /// may be the ephemeral-port sentinel, in which case the transport picks
    /// a concrete port at bind time. The surrounding process performs the
    /// bind and hands its outcome in; on success the concrete assigned port
    /// is returned with the server and is never the ephemeral sentinel — an
    /// outcome that reports no usable port is a construction failure.
    pub fn new_vsock(service: ServiceHandle, cid: u32, port: u32, outcome: BindOutcome) -> (r:
        Result<(RpcServer, u32), RpcError>)
        ensures
            r is Ok <==> (outcome matches BindOutcome::Bound { assigned_port } && assigned_port
                != VMADDR_PORT_ANY),
            match r {
                Ok(sp) => {
                    &&& outcome == (BindOutcome::Bound { assigned_port: sp.1 })
                    &&& sp.1 != VMADDR_PORT_ANY
                    &&& sp.0.wf()
                    &&& sp.0.state is Configured
                    &&& sp.0.endpoint == (Endpoint::Vsock { cid, port: sp.1 })
                    &&& sp.0.service == service
                    &&& sp.0.pool.max_threads == 1
                    &&& sp.0.pool.active == 0
                    &&& sp.0.registry.sessions@.len() == 0
                    &&& sp.0.registry.next_id == 0
                    &&& sp.0.advertised_modes@.len() == 0
                },
                Err(e) => e is ConstructionFailure,
            },
    {
        match outcome {
            BindOutcome::Bound { assigned_port } => {
                if assigned_port == VMADDR_PORT_ANY {
                    Err(RpcError::ConstructionFailure)
                } else {
                    let endpoint = Endpoint::Vsock { cid, port: assigned_port };
                    Ok((Self::from_endpoint(service, endpoint), assigned_port))
                }
            },
            BindOutcome::Failed => Err(RpcError::ConstructionFailure),
        }
    }

    /// Builds a server on a socket the caller had already bound; ownership of
    /// the descriptor transfers here and, on failure, stays with the
    /// transport mechanism, which closed it.
    pub fn new_bound_socket(
        service: ServiceHandle,
        socket_fd: OwnedDescriptor,
        outcome: SetupOutcome,
    ) -> (r: Result<RpcServer, RpcError>)
        requires
            socket_fd.wf(),
        ensures
            r is Ok <==> outcome is Ready,
            match r {
                Ok(s) => {
                    &&& s.wf()
                    &&& s.state is Configured
                    &&& s.endpoint == (Endpoint::BoundSocket { socket: socket_fd })
                    &&& s.service == service
                    &&& s.pool.max_threads == 1
                    &&& s.pool.active == 0
                    &&& s.registry.sessions@.len() == 0
                    &&& s.registry.next_id == 0
                    &&& s.advertised_modes@.len() == 0
                },
                Err(e) => e is ConstructionFailure,
            },
    {
        match outcome {
            SetupOutcome::Ready => Ok(
                Self::from_endpoint(service, Endpoint::BoundSocket { socket: socket_fd }),
            ),
            SetupOutcome::Failed => Err(RpcError::ConstructionFailure),
        }
    }

    /// Builds a server that bootstraps any number of logical sessions over
    /// one end of a pre-connected Unix-domain pair; ownership of the
    /// descriptor transfers here and, on failure, stays with the transport
    /// mechanism, which closed it.
    pub fn new_unix_domain_bootstrap(
        service: ServiceHandle,
        bootstrap_fd: OwnedDescriptor,
        outcome: SetupOutcome,
    ) -> (r: Result<RpcServer, RpcError>)
        requires
            bootstrap_fd.wf(),
        ensures
            r is Ok <==> outcome is Ready,
            match r {
                Ok(s) => {
                    &&& s.wf()
                    &&& s.state is Configured
                    &&& s.endpoint == (Endpoint::UnixDomainBootstrap { bootstrap: bootstrap_fd })
                    &&& s.service == service
                    &&& s.pool.max_threads == 1
                    &&& s.pool.active == 0
                    &&& s.registry.sessions@.len() == 0
                    &&& s.registry.next_id == 0
                    &&& s.advertised_modes@.len() == 0
                },
                Err(e) => e is ConstructionFailure,
            },
    {
        match outcome {
            SetupOutcome::Ready => Ok(
                Self::from_endpoint(
                    service,
                    Endpoint::UnixDomainBootstrap { bootstrap: bootstrap_fd },
                ),
            ),
            SetupOutcome::Failed => Err(RpcError::ConstructionFailure),
        }
    }

    /// Builds a server on an IP address and port.
    ///
    /// An address with an embedded NUL byte is rejected as invalid input
    /// whatever the reported outcome says, so the check costs no socket work:
    /// the surrounding process asks `inet_address_valid` first and attempts
    /// the bind only for a valid address.
    pub fn new_inet(service: ServiceHandle, address: &str, port: u32, outcome: SetupOutcome) -> (r:
        Result<RpcServer, RpcError>)
        ensures
            contains_nul(address.spec_bytes()) ==> r == Err::<RpcServer, RpcError>(
                RpcError::InvalidInput,
            ),
            r is Ok <==> (!contains_nul(address.spec_bytes()) && outcome is Ready),
            match r {
                Ok(s) => {
                    &&& s.wf()
                    &&& s.state is Configured
                    &&& s.endpoint matches Endpoint::Inet { address: a, port: p } && a@
                        == address.spec_bytes() && p == port
                    &&& s.service == service
                    &&& s.pool.max_threads == 1
                    &&& s.pool.active == 0
                    &&& s.registry.sessions@.len() == 0
                    &&& s.registry.next_id == 0
                    &&& s.advertised_modes@.len() == 0
                },
                Err(e) => e is InvalidInput || e is ConstructionFailure,
            },
            !contains_nul(address.spec_bytes()) && outcome is Failed ==> r == Err::<
                RpcServer,
                RpcError,
            >(RpcError::ConstructionFailure),
    {
        if !inet_address_valid(address) {
            return Err(RpcError::InvalidInput);
        }
        match outcome {
            SetupOutcome::Ready => {
                let endpoint = Endpoint::Inet { address: address_bytes(address), port };
                Ok(Self::from_endpoint(service, endpoint))
            },
            SetupOutcome::Failed => Err(RpcError::ConstructionFailure),
        }
    }

    /// Replaces the advertised descriptor-passing modes; the list is copied
    /// at call time. Allowed only while no session exists — before `start`,
    /// or after it but before the first session negotiates.
    pub fn set_supported_file_descriptor_transport_modes(
        &mut self,
        modes: &[FileDescriptorTransportMode],
    )
        requires
            old(self).wf(),
            old(self).state is Configured || old(self).state is Started,
        ensures
            final(self).wf(),
            final(self).advertised_modes@ == modes@,
            final(self).state == old(self).state,
            final(self).service == old(self).service,
            final(self).endpoint == old(self).endpoint,
            final(self).pool == old(self).pool,
            final(self).registry.sessions@ == old(self).registry.sessions@,
            final(self).registry.next_id == old(self).registry.next_id,
    {
        self.advertised_modes = vstd::slice::slice_to_vec(modes);
    }

    /// Declares how many workers service sessions and dial callbacks; the
    /// default is one, a strictly single-threaded server. Allowed only while
    /// no session exists — before `start`, or after it but before the first
    /// session is live. A count of zero would abort the underlying pool, so
    /// it is excluded here.
    pub fn set_max_threads(&mut self, count: usize)
        requires
            old(self).wf(),
            old(self).state is Configured || old(self).state is Started,
            count >= 1,
        ensures
            final(self).wf(),
            final(self).pool.max_threads == count,
            final(self).pool.active == 0,
            final(self).state == old(self).state,
            final(self).service == old(self).service,
            final(self).endpoint == old(self).endpoint,
            final(self).registry.sessions@ == old(self).registry.sessions@,
            final(self).registry.next_id == old(self).registry.next_id,
            final(self).advertised_modes@ == old(self).advertised_modes@,
    {
        self.pool.set_max_threads(count);
    }

    /// Launches the accept/dispatch machinery: the surrounding process spawns
    /// the supervising thread right after this returns, so the call never
    /// blocks. Starting twice is a caller error and is excluded here.
    pub fn start(&mut self)
        requires
            old(self).wf(),
            old(self).state is Configured,
        ensures
            final(self).wf(),
            final(self).state is Started,
            final(self).service == old(self).service,
            final(self).endpoint == old(self).endpoint,
            final(self).pool == old(self).pool,
            final(self).registry.sessions@ == old(self).registry.sessions@,
            final(self).registry.next_id == old(self).registry.next_id,
            final(self).advertised_modes@ == old(self).advertised_modes@,
    {
        self.state = LifecycleState::Started;
    }

    /// Decides one connection's admission: negotiates its mode, binds it to a
    /// worker and registers it — or refuses it and hands the descriptor back.
    fn admit_session(
        &mut self,
        direction: Direction,
        descriptor: OwnedDescriptor,
        offered: &Vec<FileDescriptorTransportMode>,
    ) -> (r: AdmitOutcome)
        requires
            old(self).wf(),
            descriptor.wf(),
        ensures
            final(self).wf(),
            old(self).spec_admits() ==> {
                &&& r matches AdmitOutcome::Admitted(id) && id == old(self).registry.next_id
                &&& final(self).state is Running
                &&& final(self).registry.sessions@ == old(self).registry.sessions@.push(
                    (Session {
                        id: old(self).registry.next_id,
                        direction,
                        mode: spec_negotiated(old(self).advertised_modes@, offered@),
                        descriptor,
                    }),
                )
                &&& final(self).registry.next_id == old(self).registry.next_id + 1
                &&& final(self).pool.active == old(self).pool.active + 1
                &&& final(self).pool.max_threads == old(self).pool.max_threads
                &&& final(self).service == old(self).service
                &&& final(self).endpoint == old(self).endpoint
                &&& final(self).advertised_modes@ == old(self).advertised_modes@
            },
            !old(self).spec_admits() ==> (r matches AdmitOutcome::Refused(d) && d == descriptor
                && *final(self) == *old(self)),
    {
        if !self.state.is_accepting() {
            return AdmitOutcome::Refused(descriptor);
        }
        if !self.pool.has_idle_worker() {
            return AdmitOutcome::Refused(descriptor);
        }
        if !self.registry.has_capacity() {
            return AdmitOutcome::Refused(descriptor);
        }
        let mode = negotiate(&self.advertised_modes, offered);
        proof {
            lemma_negotiated_is_sound(self.advertised_modes@, offered@);
        }
        self.pool.acquire();
        let id = self.registry.insert(direction, mode, descriptor);
        self.state = LifecycleState::Running;
        AdmitOutcome::Admitted(id)
    }

    /// Admits one inbound connection the endpoint accepted, after the peer
    /// offered `offered` descriptor-passing modes.
    pub fn session_accepted(
        &mut self,
        descriptor: OwnedDescriptor,
        offered: &Vec<FileDescriptorTransportMode>,
    ) -> (r: AdmitOutcome)
        requires
            old(self).wf(),
            descriptor.wf(),
        ensures
            final(self).wf(),
            old(self).spec_admits() ==> {
                &&& r matches AdmitOutcome::Admitted(id) && id == old(self).registry.next_id
                &&& final(self).state is Running
                &&& final(self).registry.sessions@ == old(self).registry.sessions@.push(
                    (Session {
                        id: old(self).registry.next_id,
                        direction: Direction::Inbound,
                        mode: spec_negotiated(old(self).advertised_modes@, offered@),
                        descriptor,
                    }),
                )
                &&& final(self).registry.next_id == old(self).registry.next_id + 1
                &&& final(self).pool.active == old(self).pool.active + 1
                &&& final(self).pool.max_threads == old(self).pool.max_threads
                &&& final(self).service == old(self).service
                &&& final(self).endpoint == old(self).endpoint
                &&& final(self).advertised_modes@ == old(self).advertised_modes@
            },
            !old(self).spec_admits() ==> (r matches AdmitOutcome::Refused(d) && d == descriptor
                && *final(self) == *old(self)),
    {
        self.admit_session(Direction::Inbound, descriptor, offered)
    }

    /// Admits one outbound callback connection a worker dialled toward a
    /// client that asked for callbacks; the same worker bound and mode rules
    /// hold as for inbound sessions.
    pub fn open_callback_session(
        &mut self,
        descriptor: OwnedDescriptor,
        offered: &Vec<FileDescriptorTransportMode>,
    ) -> (r: AdmitOutcome)
        requires
            old(self).wf(),
            descriptor.wf(),
        ensures
            final(self).wf(),
            old(self).spec_admits() ==> {
                &&& r matches AdmitOutcome::Admitted(id) && id == old(self).registry.next_id
                &&& final(self).state is Running
                &&& final(self).registry.sessions@ == old(self).registry.sessions@.push(
                    (Session {
                        id: old(self).registry.next_id,
                        direction: Direction::Outbound,
                        mode: spec_negotiated(old(self).advertised_modes@, offered@),
                        descriptor,
                    }),
                )
                &&& final(self).registry.next_id == old(self).registry.next_id + 1
                &&& final(self).pool.active == old(self).pool.active + 1
                &&& final(self).pool.max_threads == old(self).pool.max_threads
                &&& final(self).service == old(self).service
                &&& final(self).endpoint == old(self).endpoint
                &&& final(self).advertised_modes@ == old(self).advertised_modes@
            },
            !old(self).spec_admits() ==> (r matches AdmitOutcome::Refused(d) && d == descriptor
                && *final(self) == *old(self)),
    {
        self.admit_session(Direction::Outbound, descriptor, offered)
    }

    /// Ends the session with identity `id` — the peer disconnected, its
    /// protocol failed, or the shutdown drain reached it — releasing its
    /// worker and handing its descriptor back for closing. Tearing one
    /// session down never touches the lifecycle state or the other sessions.
    pub fn session_closed(&mut self, id: u64) -> (r: Option<OwnedDescriptor>)
        requires
            old(self).wf(),
        ensures
            final(self).wf(),
            final(self).state == old(self).state,
            final(self).service == old(self).service,
            final(self).endpoint == old(self).endpoint,
            final(self).pool.max_threads == old(self).pool.max_threads,
            final(self).advertised_modes@ == old(self).advertised_modes@,
            final(self).registry.next_id == old(self).registry.next_id,
            match r {
                Some(d) => {
                    &&& d.wf()
                    &&& exists|i: int|
                        0 <= i < old(self).registry.sessions@.len() && old(
                            self,
                        ).registry.sessions@[i].id == id && old(
                            self,
                        ).registry.sessions@[i].descriptor == d && final(self).registry.sessions@
                            == old(self).registry.sessions@.remove(i)
                    &&& final(self).registry.sessions@.len() == old(
                        self,
                    ).registry.sessions@.len() - 1
                    &&& final(self).pool.active == old(self).pool.active - 1
                    &&& !final(self).registry.spec_contains_id(id)
                },
                None => {
                    &&& !old(self).registry.spec_contains_id(id)
                    &&& final(self).registry.sessions@ == old(self).registry.sessions@
                    &&& final(self).pool.active == old(self).pool.active
                },
            },
    {
        let ghost pre = self.registry.sessions@;
        match self.registry.remove(id) {
            Some(s) => {
                proof {
                    let i = choose|i: int|
                        0 <= i < pre.len() && pre[i] == s && self.registry.sessions@ == pre.remove(
                            i,
                        );
                    assert forall|a: int|
                        0 <= a < self.registry.sessions@.len() implies (
                        #[trigger] self.registry.sessions@[a]).mode
                        == FileDescriptorTransportMode::NoPassing
                        || self.advertised_modes@.contains(self.registry.sessions@[a].mode) by {
                        if a < i {
                            assert(self.registry.sessions@[a] == pre[a]);
                        } else {
                            assert(self.registry.sessions@[a] == pre[a + 1]);
                        }
                    }
                }
                self.pool.release();
                Some(s.descriptor)
            },
            None => None,
        }
    }

    /// Where the lifecycle lands when termination is requested: an effective
    /// transition into `ShuttingDown` the first time, a no-op afterwards.
    pub open spec fn spec_shutdown_state(st: LifecycleState) -> LifecycleState {
        if st.spec_is_shutting_down() {
            st
        } else {
            LifecycleState::ShuttingDown
        }
    }

    /// What a shutdown call reports: success, except when the effective
    /// transition's stop mechanism could not halt the server cleanly.
    pub open spec fn spec_shutdown_result(st: LifecycleState, halt_ok: bool) -> Result<
        (),
        RpcError,
    > {
        if st.spec_is_shutting_down() || halt_ok {
            Ok(())
        } else {
            Err(RpcError::ShutdownFailure)
        }
    }

    /// Requests termination: stops admission and records that every worker
    /// and session has been signalled to wind down. Safe to call any number
    /// of times from any thread — once the first call has taken the server
    /// into `ShuttingDown`, every further call is a successful no-op.
    ///
    /// `halt_ok` is the report of the stop mechanism that delivered the
    /// signal (the surrounding process's wakeup of its threads). A failed
    /// delivery on the effective transition is surfaced as a shutdown
    /// failure; the request itself still stands, and the server is best
    /// treated as terminated with a fault. `join`, not this call, is the
    /// primitive that waits for the drain.
    pub fn shutdown(&mut self, halt_ok: bool) -> (r: Result<(), RpcError>)
        requires
            old(self).wf(),
        ensures
            final(self).wf(),
            final(self).state == Self::spec_shutdown_state(old(self).state),
            r == Self::spec_shutdown_result(old(self).state, halt_ok),
            final(self).state.spec_is_shutting_down(),
            final(self).service == old(self).service,
            final(self).endpoint == old(self).endpoint,
            final(self).pool == old(self).pool,
            final(self).registry.sessions@ == old(self).registry.sessions@,
            final(self).registry.next_id == old(self).registry.next_id,
            final(self).advertised_modes@ == old(self).advertised_modes@,
    {
        if self.state.is_shutting_down() {
            return Ok(());
        }
        self.state = LifecycleState::ShuttingDown;
        if halt_ok {
            Ok(())
        } else {
            Err(RpcError::ShutdownFailure)
        }
    }

    /// The supervisor's last act: once termination was requested and the
    /// drain has closed every session, the server is terminated — every
    /// waiter in `join` may return.
    pub fn complete_shutdown(&mut self)
        requires
            old(self).wf(),
            old(self).state is ShuttingDown,
            old(self).registry.sessions@.len() == 0,
        ensures
            final(self).wf(),
            final(self).state is Terminated,
            final(self).service == old(self).service,
            final(self).endpoint == old(self).endpoint,
            final(self).pool == old(self).pool,
            final(self).registry.sessions@ == old(self).registry.sessions@,
            final(self).registry.next_id == old(self).registry.next_id,
            final(self).advertised_modes@ == old(self).advertised_modes@,
    {
        self.state = LifecycleState::Terminated;
    }

    /// The whole drain, as the supervisor runs it once termination was
    /// requested and every worker has stopped serving: closes the sessions
    /// that are still live, hands their descriptors back for closing, and
    /// takes the terminal step. The loop provably finishes — each close
    /// strictly shrinks the registry — so a `join` waiter is unblocked after
    /// boundedly many steps, one per session that was live.
    pub fn drain_and_terminate(&mut self) -> (fds: Vec<OwnedDescriptor>)
        requires
            old(self).wf(),
            old(self).state is ShuttingDown,
        ensures
            final(self).wf(),
            final(self).state is Terminated,
            final(self).registry.sessions@.len() == 0,
            final(self).service == old(self).service,
            final(self).endpoint == old(self).endpoint,
            final(self).pool.max_threads == old(self).pool.max_threads,
            final(self).registry.next_id == old(self).registry.next_id,
            final(self).advertised_modes@ == old(self).advertised_modes@,
            fds@ == old(self).registry.sessions@.map_values(|s: Session| s.descriptor),
            forall|k: int| 0 <= k < fds@.len() ==> (#[trigger] fds@[k]).wf(),
    {
        let ghost all = self.registry.sessions@;
        let mut fds: Vec<OwnedDescriptor> = Vec::new();
        proof {
            assert(all.skip(0) =~= all);
        }
        while self.registry.sessions.len() > 0
            invariant
                self.wf(),
                self.state is ShuttingDown,
                self.service == old(self).service,
                self.endpoint == old(self).endpoint,
                self.pool.max_threads == old(self).pool.max_threads,
                self.registry.next_id == old(self).registry.next_id,
                self.advertised_modes@ == old(self).advertised_modes@,
                all == old(self).registry.sessions@,
                fds@.len() <= all.len(),
                self.registry.sessions@ == all.skip(fds@.len() as int),
                fds@ == all.subrange(0, fds@.len() as int).map_values(|s: Session| s.descriptor),
                forall|k: int| 0 <= k < fds@.len() ==> (#[trigger] fds@[k]).wf(),
            decreases self.registry.sessions@.len(),
        {
            let ghost k = fds@.len() as int;
            let ghost cur = self.registry.sessions@;
            let id = self.registry.sessions[0].id;
            proof {
                assert(self.registry.spec_contains_id(id));
            }
            match self.session_closed(id) {
                Some(d) => {
                    proof {
                        let i = choose|i: int|
                            0 <= i < cur.len() && cur[i].id == id && cur[i].descriptor == d
                                && self.registry.sessions@ == cur.remove(i);
                        assert(i == 0);
                        assert(cur.remove(0) =~= cur.skip(1));
                        assert(all.skip(k).skip(1) =~= all.skip(k + 1));
                        assert(cur[0] == all[k]);
                        assert(all.subrange(0, k + 1).map_values(|s: Session| s.descriptor)
                            =~= all.subrange(0, k).map_values(|s: Session| s.descriptor).push(
                            all[k].descriptor,
                        ));
                    }
                    fds.push(d);
                },
                None => proof {
                    assert(false);
                },
            }
        }
        self.complete_shutdown();
        proof {
            assert(all.subrange(0, all.len() as int) =~= all);
        }
        fds
    }

    /// The drain-wait predicate: true exactly when the server has fully
    /// terminated. The surrounding process's blocking join waits — under the
    /// server's lock, on its condition variable — until this returns true;
    /// any number of waiters may block, and all of them unblock together.
    pub fn join(&self) -> (done: bool)
        ensures
            done == (self.state is Terminated),
    {
        match self.state {
            LifecycleState::Terminated => true,
            _ => false,
        }
    }

    /// Surrenders the endpoint's descriptor, if its transport holds one, so
    /// the last owner can close it; only a terminated server — whose
    /// sessions have all given their descriptors back already — can be
    /// consumed this way, which is how no descriptor outlives the server.
    pub fn into_endpoint_descriptor(self) -> (r: Option<OwnedDescriptor>)
        requires
            self.wf(),
            self.state is Terminated,
        ensures
            match r {
                Some(d) => self.endpoint.spec_descriptor() == Some(d.spec_raw()),
                None => self.endpoint.spec_descriptor() is None,
            },
    {
        self.endpoint.into_descriptor()
    }
}

/// Law: requesting termination is idempotent and monotone. The first
/// effective call moves the lifecycle into `ShuttingDown` and, when its stop
/// mechanism delivered the signal, reports success; every call after it — in
/// any order, with any report — changes nothing and reports success. However
/// often termination is requested, the lifecycle ends at the same place.
pub proof fn lemma_shutdown_idempotent(st: LifecycleState, halt_ok_first: bool, halt_ok_later: bool)
    ensures
        RpcServer::spec_shutdown_state(st).spec_is_shutting_down(),
        RpcServer::spec_shutdown_state(RpcServer::spec_shutdown_state(st))
            == RpcServer::spec_shutdown_state(st),
        RpcServer::spec_shutdown_result(RpcServer::spec_shutdown_state(st), halt_ok_later) == Ok::<
            (),
            RpcError,
        >(()),
        !st.spec_is_shutting_down() && halt_ok_first ==> RpcServer::spec_shutdown_result(
            st,
            halt_ok_first,
        ) == Ok::<(), RpcError>(()),
{
}

/// Law: once termination has been requested, the server admits nothing new,
/// and at most `max_threads` sessions remain to drain; each close strictly
/// shrinks that number, and from the empty registry one `complete_shutdown`
/// step reaches `Terminated`, where `join` returns — so the wait after
/// `start`, `shutdown` is bounded by the sessions that were live.
pub proof fn lemma_shutdown_drains(s: RpcServer)
    requires
        s.wf(),
        s.state.spec_is_shutting_down(),
    ensures
        !s.spec_admits(),
        s.registry.sessions@.len() <= s.pool.max_threads,
{
}

/// Law: a server left at the default worker count, or configured with one
/// worker, services sessions strictly sequentially — at no point is more
/// than one session in flight; with `n` workers, at most `n` are.
pub proof fn lemma_thread_bound_limits_sessions(s: RpcServer)
    requires
        s.wf(),
    ensures
        s.registry.sessions@.len() <= s.pool.max_threads,
        s.pool.max_threads == 1 ==> s.registry.sessions@.len() <= 1,
{
}

/// Law: a terminated server holds no session, so every session descriptor
/// has been handed back for closing, and `into_endpoint_descriptor`
/// surrenders the only descriptor the server itself may still own — after
/// the implicit shutdown that the last owner runs on drop, no descriptor of
/// the server stays open.
pub proof fn lemma_terminated_owns_no_sessions(s: RpcServer)
    requires
        s.wf(),
        s.state is Terminated,
    ensures
        s.registry.sessions@.len() == 0,
        s.pool.active == 0,
{
}

} // verus!
