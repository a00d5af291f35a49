//! The uploader: once per period it turns the fingerprints collected into a
//! count, silences the radio, posts what is queued and lets the radio sniff
//! again.

use vstd::prelude::*;

use crate::clock::{clock_now, Timestamp};
use crate::packages::package_store::{pushed, PackageBuffer, PackageEntity};
use crate::probes::counter::{count_distinct, deduplicate_probes};
use crate::probes::fingerprint_store::FingerprintBuffer;
use crate::wifi::http::SendDataOutcome;
use crate::wifi::manager::WifiCmd;
use crate::wifi::tasks::WifiControlCmd;

verus! {

/// Time between two upload cycles, in milliseconds.
pub const PERIOD_MS: u64 = 20_000;

/// Longest wait for link and address, in milliseconds.
pub const CONNECT_TIMEOUT_MS: u64 = 15_000;

/// Longest time one upload attempt may take, in milliseconds.
pub const SEND_TIMEOUT_MS: u64 = 30_000;

/// Pause between two upload attempts, in milliseconds.
pub const RETRY_DELAY_MS: u64 = 500;

/// Pause after the radio was told to stop sniffing, in milliseconds.
pub const RADIO_SETTLE_DELAY_MS: u64 = 5_000;

/// Upload attempts per cycle.
pub const SEND_ATTEMPTS: u8 = 2;

/// Cycles in a row with a failed name resolution that force a reconnect.
pub const DNS_RECONNECT_THRESHOLD: u8 = 2;

/// What the uploader wants done next. Each action is answered by one event.
#[derive(Clone, Copy, Debug, PartialEq, Eq, Structural)]
pub enum UploadAction {
    /// Send a command to the radio manager.
    Radio(WifiCmd),
    /// Send a command to the connectivity task.
    Control(WifiControlCmd),
    /// Sleep for so many milliseconds.
    Sleep(u64),
    /// Wait for link and address, for so many milliseconds at most.
    AwaitConnection(u64),
    /// Turn the fingerprints collected into one queued count.
    Aggregate,
    /// Bring the queue's ages up to date and post it, within so many
    /// milliseconds.
    Post(u64),
    /// Empty the queue: its content has arrived.
    DrainPackages,
}

/// What answers an action.
#[derive(Clone, Copy, Debug, PartialEq, Eq, Structural)]
pub enum UploadEvent {
    /// A command was sent, a sleep ended, or the buffers were worked on.
    Done,
    /// The wait for the connection ended: `true` with link and address,
    /// `false` on the time limit.
    Connection(bool),
    /// An upload attempt ended.
    Posted(SendDataOutcome),
}

/// Where in its cycle the uploader stands: the action it waits on.
#[derive(Clone, Copy, Debug, PartialEq, Eq, Structural)]
pub enum UploadPhase {
    /// Telling the radio manager to sniff.
    Resuming,
    /// Sleeping through the period.
    Waiting,
    /// Waiting for link and address.
    Linking,
    /// Counting the period's devices.
    Aggregating,
    /// Telling the radio manager to stop sniffing.
    Silencing,
    /// Sleeping while the radio settles.
    Settling,
    /// Waiting for an upload attempt; `failures` attempts of this cycle have
    /// failed, `saw_dns` when one of them failed on name resolution.
    Posting { failures: u8, saw_dns: bool },
    /// Pausing before the next upload attempt.
    Retrying { failures: u8, saw_dns: bool },
    /// Emptying the queue after a successful upload.
    Draining { saw_dns: bool },
    /// Telling the connectivity task to reconnect.
    Escalating,
}

/// The uploader's state.
#[derive(Clone, Copy, Debug, PartialEq, Eq, Structural)]
pub struct Uploader {
    /// Where in its cycle the uploader stands.
    pub phase: UploadPhase,
    /// Cycles in a row, up to now, in which a name resolution failed.
    pub consecutive_dns_failures: u8,
}

impl UploadPhase {
    /// The action that a phase waits on.
    pub open spec fn pending(self) -> UploadAction {
        match self {
            UploadPhase::Resuming => UploadAction::Radio(WifiCmd::StartSniffing),
            UploadPhase::Waiting => UploadAction::Sleep(PERIOD_MS),
            UploadPhase::Linking => UploadAction::AwaitConnection(CONNECT_TIMEOUT_MS),
            UploadPhase::Aggregating => UploadAction::Aggregate,
            UploadPhase::Silencing => UploadAction::Radio(WifiCmd::StopSniffing),
            UploadPhase::Settling => UploadAction::Sleep(RADIO_SETTLE_DELAY_MS),
            UploadPhase::Posting { .. } => UploadAction::Post(SEND_TIMEOUT_MS),
            UploadPhase::Retrying { .. } => UploadAction::Sleep(RETRY_DELAY_MS),
            UploadPhase::Draining { .. } => UploadAction::DrainPackages,
            UploadPhase::Escalating => UploadAction::Control(WifiControlCmd::Reconnect),
        }
    }

    /// Whether `event` is the answer that a phase waits for.
    pub open spec fn answered_by(self, event: UploadEvent) -> bool {
        match self {
            UploadPhase::Linking => event is Connection,
            UploadPhase::Posting { .. } => event is Posted,
            _ => event is Done,
        }
    }

    /// Whether the radio has been told to stop sniffing and not yet to sniff
    /// again: only then may the station use it.
    pub open spec fn radio_released(self) -> bool {
        match self {
            UploadPhase::Settling
            | UploadPhase::Posting { .. }
            | UploadPhase::Retrying { .. }
            | UploadPhase::Draining { .. }
            | UploadPhase::Escalating => true,
            _ => false,
        }
    }

    /// Answers that a cycle still takes at most before the radio is told to
    /// sniff again.
    pub open spec fn steps_to_resume(self) -> nat {
        match self {
            UploadPhase::Settling => (2 * SEND_ATTEMPTS + 4) as nat,
            UploadPhase::Posting { failures, .. } => if failures < SEND_ATTEMPTS {
                (2 * (SEND_ATTEMPTS - failures) + 3) as nat
            } else {
                3
            },
            UploadPhase::Retrying { failures, .. } => if failures < SEND_ATTEMPTS {
                (2 * (SEND_ATTEMPTS - failures) + 4) as nat
            } else {
                4
            },
            UploadPhase::Draining { .. } => 2,
            UploadPhase::Escalating => 1,
            _ => 0,
        }
    }
}

impl Uploader {
    /// The state at the end of a cycle's attempts, `delivered` when one of
    /// them succeeded, `saw_dns` when one failed on name resolution.
    ///
    /// A cycle with a failed name resolution counts towards the threshold;
    /// reaching it sends a reconnect and starts the count anew. A cycle
    /// without one starts the count anew if it delivered, and leaves it as it
    /// is otherwise.
    pub open spec fn concluded(self, delivered: bool, saw_dns: bool) -> Uploader {
        if saw_dns {
            if self.consecutive_dns_failures + 1 >= DNS_RECONNECT_THRESHOLD {
                Uploader { phase: UploadPhase::Escalating, consecutive_dns_failures: 0 }
            } else {
                Uploader {
                    phase: UploadPhase::Resuming,
                    consecutive_dns_failures: (self.consecutive_dns_failures + 1) as u8,
                }
            }
        } else {
            Uploader {
                phase: UploadPhase::Resuming,
                consecutive_dns_failures: if delivered {
                    0
                } else {
                    self.consecutive_dns_failures
                },
            }
        }
    }

    /// The state that follows `event`. An event that does not answer the
    /// pending action changes nothing.
    pub open spec fn advance(self, event: UploadEvent) -> Uploader {
        let count = self.consecutive_dns_failures;
        match (self.phase, event) {
            (UploadPhase::Resuming, UploadEvent::Done) => Uploader {
                phase: UploadPhase::Waiting,
                consecutive_dns_failures: count,
            },
            (UploadPhase::Waiting, UploadEvent::Done) => Uploader {
                phase: UploadPhase::Linking,
                consecutive_dns_failures: count,
            },
            (UploadPhase::Linking, UploadEvent::Connection(ready)) => Uploader {
                phase: if ready {
                    UploadPhase::Aggregating
                } else {
                    UploadPhase::Waiting
                },
                consecutive_dns_failures: count,
            },
            (UploadPhase::Aggregating, UploadEvent::Done) => Uploader {
                phase: UploadPhase::Silencing,
                consecutive_dns_failures: count,
            },
            (UploadPhase::Silencing, UploadEvent::Done) => Uploader {
                phase: UploadPhase::Settling,
                consecutive_dns_failures: count,
            },
            (UploadPhase::Settling, UploadEvent::Done) => Uploader {
                phase: UploadPhase::Posting { failures: 0, saw_dns: false },
                consecutive_dns_failures: count,
            },
            (UploadPhase::Posting { failures, saw_dns }, UploadEvent::Posted(outcome)) => {
                let dns = saw_dns || outcome == SendDataOutcome::DnsFailure;
                if outcome == SendDataOutcome::Success {
                    Uploader { phase: UploadPhase::Draining { saw_dns }, consecutive_dns_failures: count }
                } else if failures + 1 < SEND_ATTEMPTS {
                    Uploader {
                        phase: UploadPhase::Retrying {
                            failures: (failures + 1) as u8,
                            saw_dns: dns,
                        },
                        consecutive_dns_failures: count,
                    }
                } else {
                    self.concluded(false, dns)
                }
            },
            (UploadPhase::Retrying { failures, saw_dns }, UploadEvent::Done) => Uploader {
                phase: UploadPhase::Posting { failures, saw_dns },
                consecutive_dns_failures: count,
            },
            (UploadPhase::Draining { saw_dns }, UploadEvent::Done) => self.concluded(true, saw_dns),
            (UploadPhase::Escalating, UploadEvent::Done) => Uploader {
                phase: UploadPhase::Resuming,
                consecutive_dns_failures: count,
            },
            _ => self,
        }
    }

    /// The state after `event`, and what to do next: the action that the new
    /// phase waits on.
    pub open spec fn next(self, event: UploadEvent) -> (Uploader, UploadAction) {
        (self.advance(event), self.advance(event).phase.pending())
    }

    /// Begins the task. Returns its state and first action: the radio is told
    /// to sniff.
    pub fn begin() -> (started: (Self, UploadAction))
        ensures
            started.0 == (Uploader { phase: UploadPhase::Resuming, consecutive_dns_failures: 0 }),
            started.1 == UploadAction::Radio(WifiCmd::StartSniffing),
    {
        (
            Uploader { phase: UploadPhase::Resuming, consecutive_dns_failures: 0 },
            UploadAction::Radio(WifiCmd::StartSniffing),
        )
    }

    /// The action that the current phase waits on.
    pub fn pending_action(&self) -> (action: UploadAction)
        ensures
            action == self.phase.pending(),
    {
        match self.phase {
            UploadPhase::Resuming => UploadAction::Radio(WifiCmd::StartSniffing),
            UploadPhase::Waiting => UploadAction::Sleep(PERIOD_MS),
            UploadPhase::Linking => UploadAction::AwaitConnection(CONNECT_TIMEOUT_MS),
            UploadPhase::Aggregating => UploadAction::Aggregate,
            UploadPhase::Silencing => UploadAction::Radio(WifiCmd::StopSniffing),
            UploadPhase::Settling => UploadAction::Sleep(RADIO_SETTLE_DELAY_MS),
            UploadPhase::Posting { .. } => UploadAction::Post(SEND_TIMEOUT_MS),
            UploadPhase::Retrying { .. } => UploadAction::Sleep(RETRY_DELAY_MS),
            UploadPhase::Draining { .. } => UploadAction::DrainPackages,
            UploadPhase::Escalating => UploadAction::Control(WifiControlCmd::Reconnect),
        }
    }

    /// Ends the cycle's attempts.
    fn conclude(&mut self, delivered: bool, saw_dns: bool)
        ensures
            *final(self) == old(self).concluded(delivered, saw_dns),
    {
        if saw_dns {
            let failures = self.consecutive_dns_failures.saturating_add(1);
            if failures >= DNS_RECONNECT_THRESHOLD {
                self.consecutive_dns_failures = 0;
                self.phase = UploadPhase::Escalating;
            } else {
                self.consecutive_dns_failures = failures;
                self.phase = UploadPhase::Resuming;
            }
        } else {
            if delivered {
                self.consecutive_dns_failures = 0;
            }
            self.phase = UploadPhase::Resuming;
        }
    }

    /// Takes the answer to the pending action and says what to do next.
    pub fn step(&mut self, event: UploadEvent) -> (action: UploadAction)
        ensures
            (*final(self), action) == old(self).next(event),
    {
        match self.phase {
            UploadPhase::Linking => match event {
                UploadEvent::Connection(true) => {
                    self.phase = UploadPhase::Aggregating;
                },
                UploadEvent::Connection(false) => {
                    self.phase = UploadPhase::Waiting;
                },
                _ => {},
            },
            UploadPhase::Posting { failures, saw_dns } => match event {
                UploadEvent::Posted(SendDataOutcome::Success) => {
                    self.phase = UploadPhase::Draining { saw_dns };
                },
                UploadEvent::Posted(outcome) => {
                    let dns = match outcome {
                        SendDataOutcome::DnsFailure => true,
                        _ => saw_dns,
                    };
                    if failures < SEND_ATTEMPTS - 1 {
                        self.phase = UploadPhase::Retrying { failures: failures + 1, saw_dns: dns };
                    } else {
                        self.conclude(false, dns);
                    }
                },
                _ => {},
            },
            phase => match event {
                UploadEvent::Done => match phase {
                    UploadPhase::Resuming => {
                        self.phase = UploadPhase::Waiting;
                    },
                    UploadPhase::Waiting => {
                        self.phase = UploadPhase::Linking;
                    },
                    UploadPhase::Aggregating => {
                        self.phase = UploadPhase::Silencing;
                    },
                    UploadPhase::Silencing => {
                        self.phase = UploadPhase::Settling;
                    },
                    UploadPhase::Settling => {
                        self.phase = UploadPhase::Posting { failures: 0, saw_dns: false };
                    },
                    UploadPhase::Retrying { failures, saw_dns } => {
                        self.phase = UploadPhase::Posting { failures, saw_dns };
                    },
                    UploadPhase::Draining { saw_dns } => {
                        self.conclude(true, saw_dns);
                    },
                    UploadPhase::Escalating => {
                        self.phase = UploadPhase::Resuming;
                    },
                    _ => {},
                },
                _ => {},
            },
        }
        self.pending_action()
    }
}

/// Turns the fingerprints collected into one aggregate stamped `now`: the
/// distinct devices are counted, the count is queued and the store emptied.
pub fn aggregate_at(
    fingerprints: &mut FingerprintBuffer,
    packages: &mut PackageBuffer,
    now: Timestamp,
) -> (count: u32)
    ensures
        count == count_distinct(old(fingerprints)@),
        final(fingerprints)@ == Seq::<u16>::empty(),
        final(packages)@ == pushed(old(packages)@, PackageEntity::fresh(count, now)),
{
    let snapshot = fingerprints.snapshot();
    let count = deduplicate_probes(snapshot.as_slice());
    packages.push_at(count, now);
    fingerprints.drain();
    count
}

/// Turns the fingerprints collected into one aggregate stamped with the
/// current time.
pub fn aggregate(fingerprints: &mut FingerprintBuffer, packages: &mut PackageBuffer) -> (count: u32)
    ensures
        count == count_distinct(old(fingerprints)@),
        final(fingerprints)@ == Seq::<u16>::empty(),
        exists|now: Timestamp|
            final(packages)@ == pushed(old(packages)@, #[trigger] PackageEntity::fresh(count, now)),
{
    aggregate_at(fingerprints, packages, clock_now())
}

/// An event that does not answer the pending action is ignored.
pub proof fn lemma_upload_ignores(uploader: Uploader, event: UploadEvent)
    requires
        !uploader.phase.answered_by(event),
    ensures
        uploader.next(event) == (uploader, uploader.phase.pending()),
{
}

/// The station gets the radio only between a stop and the next start: an
/// upload is attempted only while the radio is released, the radio is
/// released only by the answer to the stop command, and whatever ends the
/// release tells the radio to sniff again.
pub proof fn lemma_radio_exclusion(uploader: Uploader, event: UploadEvent)
    ensures
        uploader.next(event).1 is Post ==> uploader.next(event).0.phase.radio_released(),
        uploader.phase.pending() is Post ==> uploader.phase.radio_released(),
        !uploader.phase.radio_released() && uploader.next(event).0.phase.radio_released() ==> {
            &&& uploader.phase == UploadPhase::Silencing
            &&& uploader.phase.pending() == UploadAction::Radio(WifiCmd::StopSniffing)
            &&& event == UploadEvent::Done
        },
        uploader.phase.radio_released() && !uploader.next(event).0.phase.radio_released()
            ==> uploader.next(event).1 == UploadAction::Radio(WifiCmd::StartSniffing),
{
}

/// Whatever the upload attempts come to, the release ends: each answer brings
/// the cycle closer to telling the radio to sniff again, at most eight answers
/// after the stop.
pub proof fn lemma_release_ends(uploader: Uploader, event: UploadEvent)
    requires
        uploader.phase.radio_released(),
        uploader.phase.answered_by(event),
    ensures
        uploader.advance(event).phase.steps_to_resume() < uploader.phase.steps_to_resume(),
        UploadPhase::Settling.steps_to_resume() == 8,
        uploader.advance(event).phase.steps_to_resume() == 0 ==> uploader.next(event).1
            == UploadAction::Radio(WifiCmd::StartSniffing),
{
}

/// The queue is emptied only after an attempt succeeded, and after nothing
/// else: what was not delivered stays queued.
pub proof fn lemma_drain_needs_success(uploader: Uploader, event: UploadEvent)
    ensures
        uploader.next(event).1 == UploadAction::DrainPackages && !(uploader.phase is Draining)
            ==> uploader.phase is Posting && event == UploadEvent::Posted(
            SendDataOutcome::Success,
        ),
{
}

/// A failed name resolution in each of [`DNS_RECONNECT_THRESHOLD`] cycles in a
/// row sends one reconnect and starts the count anew; below the threshold the
/// cycle only counts.
pub proof fn lemma_dns_escalation(uploader: Uploader, delivered: bool)
    ensures
        ({
            let after = uploader.concluded(delivered, true);
            if uploader.consecutive_dns_failures + 1 >= DNS_RECONNECT_THRESHOLD {
                &&& after.phase.pending() == UploadAction::Control(WifiControlCmd::Reconnect)
                &&& after.consecutive_dns_failures == 0
                &&& after.next(UploadEvent::Done).1 == UploadAction::Radio(WifiCmd::StartSniffing)
            } else {
                &&& after.phase.pending() == UploadAction::Radio(WifiCmd::StartSniffing)
                &&& after.consecutive_dns_failures == uploader.consecutive_dns_failures + 1
            }
        }),
        uploader.concluded(true, false).consecutive_dns_failures == 0,
        uploader.concluded(false, false).consecutive_dns_failures
            == uploader.consecutive_dns_failures,
        uploader.concluded(delivered, false).phase == UploadPhase::Resuming,
{
}

} // verus!
