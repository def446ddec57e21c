use vstd::prelude::*;
use vstd::slice::slice_to_vec;
use vstd::string::StringSliceAdditionalSpecFns;

verus! {

/// Accept connections from any peer context id (vsock wire constant).
pub const VMADDR_CID_ANY: u32 = 0xFFFF_FFFF;

/// Bind only to the local vsock interface (vsock wire constant).
pub const VMADDR_CID_LOCAL: u32 = 1;

/// Let the operating system pick an ephemeral vsock port (vsock wire
/// constant). A successfully bound server never reports this value as its
/// assigned port.
pub const VMADDR_PORT_ANY: u32 = 0xFFFF_FFFF;

/// An exclusively owned, open socket descriptor.
///
/// The value is move-only: handing it to a constructor consumes it, so no two
/// components ever own the same descriptor. Whoever holds it last is obliged
/// to close it, which the surrounding process does with the raw value that
/// `into_raw` surrenders.
pub struct OwnedDescriptor {
    raw: i32,
}

impl OwnedDescriptor {
    /// The raw descriptor number.
    pub closed spec fn spec_raw(self) -> int {
        self.raw as int
    }

    /// An open descriptor is a non-negative number.
    pub closed spec fn wf(self) -> bool {
        self.raw >= 0
    }

    /// Takes ownership of the open descriptor `raw`.
    pub fn new(raw: i32) -> (d: OwnedDescriptor)
        requires
            raw >= 0,
        ensures
            d.wf(),
            d.spec_raw() == raw,
    {
        OwnedDescriptor { raw }
    }

    /// Reads the descriptor number without giving up ownership.
    pub fn raw(&self) -> (r: i32)
        ensures
            r == self.spec_raw(),
    {
        self.raw
    }

    /// Surrenders the descriptor to the caller, who must close it.
    pub fn into_raw(self) -> (r: i32)
        ensures
            r == self.spec_raw(),
    {
        self.raw
    }
}

/// Whether `bytes` holds an embedded NUL, which no address string may.
pub open spec fn contains_nul(bytes: Seq<u8>) -> bool {
    exists|i: int| 0 <= i < bytes.len() && bytes[i] == 0
}

/// Decides whether `address` can be handed to the operating system as a
/// NUL-terminated string: true exactly when no byte of it is NUL.
pub fn inet_address_valid(address: &str) -> (r: bool)
    ensures
        r == !contains_nul(address.spec_bytes()),
{
    let bytes = address.as_bytes();
    let n = bytes.len();
    let mut i: usize = 0;
    while i < n
        invariant
            0 <= i <= n == bytes@.len(),
            bytes@ == address.spec_bytes(),
            forall|j: int| 0 <= j < i ==> bytes@[j] != 0,
        decreases n - i,
    {
        if bytes[i] == 0 {
            return false;
        }
        i += 1;
    }
    true
}

/// The transport a server is bound to; immutable after construction, exactly
/// one kind per server.
pub enum Endpoint {
    /// A vsock listener on `cid`/`port`. After construction `port` is the
    /// concrete port the transport bound, never the ephemeral-port sentinel.
    Vsock { cid: u32, port: u32 },
    /// A listener on a socket the caller had already bound; the descriptor's
    /// ownership moved into the server.
    BoundSocket { socket: OwnedDescriptor },
    /// One end of a pre-connected Unix-domain pair over which any number of
    /// logical sessions are bootstrapped; the descriptor's ownership moved
    /// into the server.
    UnixDomainBootstrap { bootstrap: OwnedDescriptor },
    /// An IP listener on `address`/`port`; the address bytes are NUL-free.
    Inet { address: Vec<u8>, port: u32 },
}

impl Endpoint {
    /// What construction establishes and every later step preserves.
    pub open spec fn wf(self) -> bool {
        match self {
            Endpoint::Vsock { cid, port } => port != VMADDR_PORT_ANY,
            Endpoint::BoundSocket { socket } => socket.wf(),
            Endpoint::UnixDomainBootstrap { bootstrap } => bootstrap.wf(),
            Endpoint::Inet { address, port } => !contains_nul(address@),
        }
    }

    /// The descriptor the endpoint owns, if its transport holds one.
    pub open spec fn spec_descriptor(self) -> Option<int> {
        match self {
            Endpoint::Vsock { .. } => None,
            Endpoint::BoundSocket { socket } => Some(socket.spec_raw()),
            Endpoint::UnixDomainBootstrap { bootstrap } => Some(bootstrap.spec_raw()),
            Endpoint::Inet { .. } => None,
        }
    }

    /// Surrenders the endpoint's descriptor, if any, to the caller, who must
    /// close it.
    pub fn into_descriptor(self) -> (r: Option<OwnedDescriptor>)
        ensures
            match r {
                Some(d) => self.spec_descriptor() == Some(d.spec_raw()),
                None => self.spec_descriptor() is None,
            },
    {
        match self {
            Endpoint::Vsock { .. } => None,
            Endpoint::BoundSocket { socket } => Some(socket),
            Endpoint::UnixDomainBootstrap { bootstrap } => Some(bootstrap),
            Endpoint::Inet { .. } => None,
        }
    }
}

/// Copies the validated address bytes out of an address string.
pub fn address_bytes(address: &str) -> (r: Vec<u8>)
    ensures
        r@ == address.spec_bytes(),
{
    slice_to_vec(address.as_bytes())
}

/// What the operating system reported for a vsock bind attempt. The
/// surrounding process performs the bind and hands the outcome here; on
/// success it reports the concrete port the socket ended up on.
#[derive(Clone, Copy, Debug, PartialEq, Eq, Structural)]
pub enum BindOutcome {
    /// The listener is up on `assigned_port`.
    Bound { assigned_port: u32 },
    /// Bind or listen failed, or resources ran out.
    Failed,
}

/// What the operating system reported for a transport setup that involves no
/// port assignment (bound socket, bootstrap pair, IP listener).
#[derive(Clone, Copy, Debug, PartialEq, Eq, Structural)]
pub enum SetupOutcome {
    /// The transport is ready to accept sessions.
    Ready,
    /// Setup failed, or resources ran out.
    Failed,
}

} // verus!
