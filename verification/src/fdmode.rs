use vstd::prelude::*;

verus! {

/// A way of passing file descriptors alongside payloads over a session.
///
/// Every peer understands `NoPassing`; it is the baseline that needs no
/// advertisement. The other modes must be advertised by the server before a
/// session may negotiate them.
#[derive(Clone, Copy, Debug, PartialEq, Eq, Structural)]
pub enum FileDescriptorTransportMode {
    /// No file descriptors are passed; always available.
    NoPassing,
    /// Raw descriptor passing through ancillary socket data.
    Ancillary,
    /// Descriptors are carried as memory-backed files.
    MemoryFile,
}

/// The mode a session settles on: the first mode the peer offers that the
/// server advertises, or the baseline when no offer matches.
pub open spec fn spec_negotiated(
    advertised: Seq<FileDescriptorTransportMode>,
    offered: Seq<FileDescriptorTransportMode>,
) -> FileDescriptorTransportMode
    decreases offered.len(),
{
    if offered.len() == 0 {
        FileDescriptorTransportMode::NoPassing
    } else if advertised.contains(offered[0]) {
        offered[0]
    } else {
        spec_negotiated(advertised, offered.skip(1))
    }
}

/// The negotiated mode is never one the server does not stand behind: it is
/// the baseline, or it is both advertised and offered.
pub proof fn lemma_negotiated_is_sound(
    advertised: Seq<FileDescriptorTransportMode>,
    offered: Seq<FileDescriptorTransportMode>,
)
    ensures
        spec_negotiated(advertised, offered) == FileDescriptorTransportMode::NoPassing
            || (advertised.contains(spec_negotiated(advertised, offered))
                && offered.contains(spec_negotiated(advertised, offered))),
    decreases offered.len(),
{
    if offered.len() == 0 {
    } else if advertised.contains(offered[0]) {
        assert(offered.contains(offered[0]));
    } else {
        lemma_negotiated_is_sound(advertised, offered.skip(1));
        if spec_negotiated(advertised, offered) != FileDescriptorTransportMode::NoPassing {
            let m = spec_negotiated(advertised, offered.skip(1));
            let i = choose|i: int| 0 <= i < offered.skip(1).len() && offered.skip(1)[i] == m;
            assert(offered[i + 1] == m);
        }
    }
}

/// Whether `modes` holds `m`.
pub fn modes_contain(modes: &Vec<FileDescriptorTransportMode>, m: FileDescriptorTransportMode) -> (r:
    bool)
    ensures
        r == modes@.contains(m),
{
    let n = modes.len();
    let mut i: usize = 0;
    while i < n
        invariant
            0 <= i <= n == modes@.len(),
            forall|j: int| 0 <= j < i ==> modes@[j] != m,
        decreases n - i,
    {
        if modes[i] == m {
            return true;
        }
        i += 1;
    }
    false
}

/// Picks the mode a freshly established session uses, from the server's
/// advertised list and the peer's offer.
pub fn negotiate(
    advertised: &Vec<FileDescriptorTransportMode>,
    offered: &Vec<FileDescriptorTransportMode>,
) -> (m: FileDescriptorTransportMode)
    ensures
        m == spec_negotiated(advertised@, offered@),
{
    let n = offered.len();
    let mut i: usize = 0;
    proof {
        assert(offered@.skip(0) =~= offered@);
    }
    while i < n
        invariant
            0 <= i <= n == offered@.len(),
            spec_negotiated(advertised@, offered@) == spec_negotiated(
                advertised@,
                offered@.skip(i as int),
            ),
        decreases n - i,
    {
        if modes_contain(advertised, offered[i]) {
            assert(offered@.skip(i as int)[0] == offered@[i as int]);
            return offered[i];
        }
        proof {
            assert(offered@.skip(i as int).skip(1) =~= offered@.skip(i as int + 1));
        }
        i += 1;
    }
    assert(offered@.skip(n as int).len() == 0);
    FileDescriptorTransportMode::NoPassing
}

} // verus!
