//! Descriptor conservation, in the abstract: every open descriptor the
//! fabric owns is held in exactly one place — a live endpoint (each live
//! pipe or control pair contributes its two ends), a message inside some
//! process, a datagram in flight inside the kernel, or an installed
//! standard stream. The fabric's operations move descriptors between these
//! places or create and close them; none duplicates one silently.

use vstd::prelude::*;

verus! {

/// The descriptor population attributable to the fabric, counted by holder.
pub struct Ledger {
    /// Descriptors held by live pipe or control endpoints.
    pub endpoint_fds: int,
    /// Descriptors attached to messages held in some process.
    pub message_fds: int,
    /// Descriptors riding in kernel rights messages of in-flight datagrams.
    pub inflight_fds: int,
    /// Descriptors installed as standard streams of some process.
    pub std_stream_fds: int,
    /// All open descriptors the fabric is accountable for.
    pub open_fds: int,
}

/// The tree before anything is created.
pub open spec fn empty_ledger() -> Ledger {
    Ledger { endpoint_fds: 0, message_fds: 0, inflight_fds: 0, std_stream_fds: 0, open_fds: 0 }
}

/// The conservation identity: the open descriptors equal the sum over the
/// four holders.
pub open spec fn balanced(l: Ledger) -> bool {
    l.open_fds == l.endpoint_fds + l.message_fds + l.inflight_fds + l.std_stream_fds
}

pub open spec fn counts_nonneg(l: Ledger) -> bool {
    l.endpoint_fds >= 0 && l.message_fds >= 0 && l.inflight_fds >= 0 && l.std_stream_fds >= 0
}

/// One step of the fabric, as it affects descriptor ownership.
pub enum LedgerEvent {
    /// `new_pipe` or `new_control`: two fresh descriptors, one per end.
    CreatePair,
    /// An endpoint is closed, explicitly or under the drop policy.
    CloseEndpoint,
    /// An endpoint's descriptor moves into a prepared message.
    AttachToMessage,
    /// An accessor consumes a message's descriptor back into an endpoint.
    TakeFromMessage,
    /// A message still holding its descriptor is dropped: the descriptor is
    /// closed, never leaked.
    DropMessageFd,
    /// A send places the descriptor in the kernel's rights message and the
    /// local duplicate is closed: ownership moves into the datagram.
    SendWithFd,
    /// A receive extracts the sole descriptor from the rights message.
    ReceiveWithFd,
    /// A forgotten endpoint's descriptor is duplicated onto a standard
    /// stream slot, whose previous occupant is closed.
    InstallStdStream,
    /// An installed standard stream is closed.
    CloseStdStream,
}

/// Which steps a tree in a given state can take: nothing is consumed from
/// an empty holder.
pub open spec fn event_allowed(l: Ledger, e: LedgerEvent) -> bool {
    match e {
        LedgerEvent::CreatePair => true,
        LedgerEvent::CloseEndpoint => l.endpoint_fds >= 1,
        LedgerEvent::AttachToMessage => l.endpoint_fds >= 1,
        LedgerEvent::TakeFromMessage => l.message_fds >= 1,
        LedgerEvent::DropMessageFd => l.message_fds >= 1,
        LedgerEvent::SendWithFd => l.message_fds >= 1,
        LedgerEvent::ReceiveWithFd => l.inflight_fds >= 1,
        LedgerEvent::InstallStdStream => l.endpoint_fds >= 1,
        LedgerEvent::CloseStdStream => l.std_stream_fds >= 1,
    }
}

/// The tree after one step.
pub open spec fn step(l: Ledger, e: LedgerEvent) -> Ledger {
    match e {
        LedgerEvent::CreatePair => Ledger {
            endpoint_fds: l.endpoint_fds + 2,
            open_fds: l.open_fds + 2,
            ..l
        },
        LedgerEvent::CloseEndpoint => Ledger {
            endpoint_fds: l.endpoint_fds - 1,
            open_fds: l.open_fds - 1,
            ..l
        },
        LedgerEvent::AttachToMessage => Ledger {
            endpoint_fds: l.endpoint_fds - 1,
            message_fds: l.message_fds + 1,
            ..l
        },
        LedgerEvent::TakeFromMessage => Ledger {
            endpoint_fds: l.endpoint_fds + 1,
            message_fds: l.message_fds - 1,
            ..l
        },
        LedgerEvent::DropMessageFd => Ledger {
            message_fds: l.message_fds - 1,
            open_fds: l.open_fds - 1,
            ..l
        },
        LedgerEvent::SendWithFd => Ledger {
            message_fds: l.message_fds - 1,
            inflight_fds: l.inflight_fds + 1,
            ..l
        },
        LedgerEvent::ReceiveWithFd => Ledger {
            inflight_fds: l.inflight_fds - 1,
            message_fds: l.message_fds + 1,
            ..l
        },
        LedgerEvent::InstallStdStream => Ledger {
            endpoint_fds: l.endpoint_fds - 1,
            std_stream_fds: l.std_stream_fds + 1,
            ..l
        },
        LedgerEvent::CloseStdStream => Ledger {
            std_stream_fds: l.std_stream_fds - 1,
            open_fds: l.open_fds - 1,
            ..l
        },
    }
}

/// One step keeps the conservation identity and the counts sensible.
pub proof fn lemma_step_preserves_balance(l: Ledger, e: LedgerEvent)
    requires
        balanced(l),
        counts_nonneg(l),
        event_allowed(l, e),
    ensures
        balanced(step(l, e)),
        counts_nonneg(step(l, e)),
{
}

/// The tree after a sequence of steps.
pub open spec fn run(l: Ledger, es: Seq<LedgerEvent>) -> Ledger
    decreases es.len(),
{
    if es.len() == 0 {
        l
    } else {
        run(step(l, es[0]), es.skip(1))
    }
}

/// Whether a whole sequence of steps is possible from a given tree.
pub open spec fn run_allowed(l: Ledger, es: Seq<LedgerEvent>) -> bool
    decreases es.len(),
{
    es.len() == 0 || (event_allowed(l, es[0]) && run_allowed(step(l, es[0]), es.skip(1)))
}

/// Descriptor conservation: after any possible sequence of fabric steps
/// from a balanced tree — in particular from the empty one — the total
/// count of open descriptors attributable to the fabric equals the live
/// endpoint ends plus the messages holding a descriptor, the descriptors in
/// flight, and the installed standard streams.
pub proof fn lemma_descriptor_conservation(l: Ledger, es: Seq<LedgerEvent>)
    requires
        balanced(l),
        counts_nonneg(l),
        run_allowed(l, es),
    ensures
        balanced(run(l, es)),
        counts_nonneg(run(l, es)),
    decreases es.len(),
{
    if es.len() == 0 {
    } else {
        lemma_step_preserves_balance(l, es[0]);
        lemma_descriptor_conservation(step(l, es[0]), es.skip(1));
    }
}

} // verus!
