//! Sharing the single radio between sniffing and uploading: the decisions of
//! the radio manager, the connectivity task and the uploader, and what the
//! network stack needs from them.

use vstd::prelude::*;

pub mod http;
pub mod manager;
pub mod tasks;
pub mod uploader;

verus! {

/// Sockets the network stack is given room for: DHCP, TCP and DNS.
pub const STACK_SOCKETS: usize = 3;

/// Pause between two looks at the link or the address, in milliseconds.
pub const LINK_POLL_INTERVAL_MS: u64 = 500;

/// The 64-bit value whose lower half is `low` and whose upper half is `high`.
pub open spec fn seed_of(low: u32, high: u32) -> u64 {
    (low as u64) | ((high as u64) << 32u64)
}

/// The two seeds drawn at start-up.
#[derive(Clone, Copy, Debug, PartialEq, Eq, Structural)]
pub struct StackSeeds {
    /// Seed of the IP stack.
    pub net_seed: u64,
    /// Seed of the TLS sessions.
    pub tls_seed: u64,
}

/// Composes a 64-bit seed from two reads of the random number generator, the
/// first read in the lower half.
pub fn compose_seed(low: u32, high: u32) -> (seed: u64)
    ensures
        seed == seed_of(low, high),
        seed == low + high * 0x1_0000_0000,
{
    let seed = (low as u64) | ((high as u64) << 32u64);
    assert(((low as u64) | ((high as u64) << 32u64)) == low as u64 + (high as u64) * 0x1_0000_0000u64)
        by (bit_vector);
    seed
}

/// Derives the seeds of the IP stack and of TLS from four reads of the random
/// number generator, in the order in which they were made: no read serves
/// both seeds.
pub fn derive_seeds(reads: [u32; 4]) -> (seeds: StackSeeds)
    ensures
        seeds.net_seed == seed_of(reads@[0], reads@[1]),
        seeds.tls_seed == seed_of(reads@[2], reads@[3]),
{
    StackSeeds {
        net_seed: compose_seed(reads[0], reads[1]),
        tls_seed: compose_seed(reads[2], reads[3]),
    }
}

/// What answers an action of the wait for the connection.
#[derive(Clone, Copy, Debug, PartialEq, Eq, Structural)]
pub enum LinkEvent {
    /// Whether the link is up.
    Link(bool),
    /// Whether the stack has an IPv4 configuration.
    Address(bool),
    /// A sleep ended.
    Slept,
}

/// What the wait for the connection wants done next.
#[derive(Clone, Copy, Debug, PartialEq, Eq, Structural)]
pub enum LinkAction {
    /// Ask the stack whether the link is up.
    CheckLink,
    /// Ask the stack for its IPv4 configuration.
    CheckAddress,
    /// Sleep for so many milliseconds.
    Sleep(u64),
    /// Link and address are there: the wait is over.
    Ready,
}

/// How far the wait for the connection has come.
#[derive(Clone, Copy, Debug, PartialEq, Eq, Structural)]
pub enum LinkWait {
    /// Waiting to hear whether the link is up.
    CheckingLink,
    /// Sleeping before the next look at the link.
    LinkPause,
    /// The link is up; waiting to hear of the address.
    CheckingAddress,
    /// Sleeping before the next look at the address.
    AddressPause,
    /// Link and address are there.
    Ready,
}

impl LinkWait {
    /// The action that a state waits on.
    pub open spec fn pending(self) -> LinkAction {
        match self {
            LinkWait::CheckingLink => LinkAction::CheckLink,
            LinkWait::CheckingAddress => LinkAction::CheckAddress,
            LinkWait::LinkPause | LinkWait::AddressPause => LinkAction::Sleep(
                LINK_POLL_INTERVAL_MS,
            ),
            LinkWait::Ready => LinkAction::Ready,
        }
    }

    /// The state that follows `event`: the link is polled until it is up,
    /// then the address until it is there. An event that does not answer the
    /// pending action changes nothing.
    pub open spec fn advance(self, event: LinkEvent) -> LinkWait {
        match (self, event) {
            (LinkWait::CheckingLink, LinkEvent::Link(true)) => LinkWait::CheckingAddress,
            (LinkWait::CheckingLink, LinkEvent::Link(false)) => LinkWait::LinkPause,
            (LinkWait::LinkPause, LinkEvent::Slept) => LinkWait::CheckingLink,
            (LinkWait::CheckingAddress, LinkEvent::Address(true)) => LinkWait::Ready,
            (LinkWait::CheckingAddress, LinkEvent::Address(false)) => LinkWait::AddressPause,
            (LinkWait::AddressPause, LinkEvent::Slept) => LinkWait::CheckingAddress,
            _ => self,
        }
    }

    /// The state after `event`, and what to do next.
    pub open spec fn next(self, event: LinkEvent) -> (LinkWait, LinkAction) {
        (self.advance(event), self.advance(event).pending())
    }

    /// Whether the link has been seen up.
    pub open spec fn link_seen(self) -> bool {
        self == LinkWait::CheckingAddress || self == LinkWait::AddressPause || self
            == LinkWait::Ready
    }

    /// Begins the wait. Returns its state and first action.
    pub fn begin() -> (started: (Self, LinkAction))
        ensures
            started.0 == LinkWait::CheckingLink,
            started.1 == LinkAction::CheckLink,
    {
        (LinkWait::CheckingLink, LinkAction::CheckLink)
    }

    /// The action that the current state waits on.
    pub fn pending_action(&self) -> (action: LinkAction)
        ensures
            action == self.pending(),
    {
        match self {
            LinkWait::CheckingLink => LinkAction::CheckLink,
            LinkWait::CheckingAddress => LinkAction::CheckAddress,
            LinkWait::LinkPause => LinkAction::Sleep(LINK_POLL_INTERVAL_MS),
            LinkWait::AddressPause => LinkAction::Sleep(LINK_POLL_INTERVAL_MS),
            LinkWait::Ready => LinkAction::Ready,
        }
    }

    /// Takes the answer to the pending action and says what to do next.
    pub fn step(&mut self, event: LinkEvent) -> (action: LinkAction)
        ensures
            (*final(self), action) == old(self).next(event),
    {
        let state = *self;
        match state {
            LinkWait::CheckingLink => match event {
                LinkEvent::Link(up) => {
                    *self = if up {
                        LinkWait::CheckingAddress
                    } else {
                        LinkWait::LinkPause
                    };
                },
                _ => {},
            },
            LinkWait::LinkPause => match event {
                LinkEvent::Slept => {
                    *self = LinkWait::CheckingLink;
                },
                _ => {},
            },
            LinkWait::CheckingAddress => match event {
                LinkEvent::Address(there) => {
                    *self = if there {
                        LinkWait::Ready
                    } else {
                        LinkWait::AddressPause
                    };
                },
                _ => {},
            },
            LinkWait::AddressPause => match event {
                LinkEvent::Slept => {
                    *self = LinkWait::CheckingAddress;
                },
                _ => {},
            },
            LinkWait::Ready => {},
        }
        self.pending_action()
    }
}

/// The wait ends only on the address, and the address is asked for only once
/// the link has been seen up; what has been seen is never lost.
pub proof fn lemma_ready_needs_link_then_address(wait: LinkWait, event: LinkEvent)
    ensures
        wait != LinkWait::Ready && wait.advance(event) == LinkWait::Ready ==> wait
            == LinkWait::CheckingAddress && event == LinkEvent::Address(true),
        !wait.link_seen() && wait.advance(event).link_seen() ==> wait == LinkWait::CheckingLink
            && event == LinkEvent::Link(true),
        wait.link_seen() ==> wait.advance(event).link_seen(),
        wait.next(event).1 == LinkAction::CheckAddress ==> wait.advance(event).link_seen(),
{
}

} // verus!
