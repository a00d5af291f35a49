//! The connectivity task: the one owner of the Wi-Fi client controller. It
//! keeps the station associated and obeys reconnect and restart commands.

use vstd::prelude::*;

verus! {

/// Pause after a failed configure, start or connect, in milliseconds.
pub const WIFI_RETRY_DELAY_MS: u64 = 5000;

/// Pause between two looks at an associated station, in milliseconds.
pub const WIFI_POLL_INTERVAL_MS: u64 = 500;

/// Pause after the disconnect of a reconnect command, in milliseconds.
pub const RECONNECT_SETTLE_DELAY_MS: u64 = 2000;

/// Pause after the stop of a restart command, in milliseconds.
pub const RESTART_SETTLE_DELAY_MS: u64 = 2000;

/// Commands from the uploader to the connectivity task.
#[derive(Clone, Copy, Debug, PartialEq, Eq, Structural)]
pub enum WifiControlCmd {
    /// Drop the association and associate again.
    Reconnect,
    /// Drop the association, stop the controller and bring it up again.
    RestartController,
}

/// How far the station has come, as the task believes, while the pending
/// action is carried out.
///
/// The station comes up through these states in order. The task rests in
/// every one of them but `Started`: a controller that has started, or is
/// found started, is asked to associate in the same step, so between two
/// steps the station is already `Connecting`.
#[derive(Clone, Copy, Debug, PartialEq, Eq, Structural)]
pub enum StationState {
    /// Nothing is set up, or the last attempt failed.
    Idle,
    /// The client configuration is applied; the controller is being started.
    Configured,
    /// The controller is started and no association attempt has begun. The
    /// task passes through this state within a step and never rests in it.
    Started,
    /// The controller is started and an association attempt is under way.
    Connecting,
    /// The station is associated.
    Connected,
}

/// What the task is missing to do its work.
#[derive(Clone, Copy, Debug, PartialEq, Eq, Structural)]
pub enum MissingCredential {
    /// No network name was built in.
    Ssid,
    /// No passphrase was built in.
    Password,
}

/// What the task wants done next. Each action is answered by one event.
#[derive(Clone, Copy, Debug, PartialEq, Eq, Structural)]
pub enum ConnectAction {
    /// Look at the control channel without waiting.
    PollControl,
    /// Disconnect the station.
    Disconnect,
    /// Stop the controller.
    Stop,
    /// Sleep for so many milliseconds.
    Sleep(u64),
    /// Ask the radio whether the station is associated.
    CheckConnected,
    /// Ask the controller whether it is started.
    CheckStarted,
    /// Apply the client configuration.
    Configure,
    /// Start the controller.
    Start,
    /// Associate with the access point.
    Connect,
    /// Report the missing credential and end the task.
    Exit(MissingCredential),
}

/// What answers an action.
#[derive(Clone, Copy, Debug, PartialEq, Eq, Structural)]
pub enum ConnectEvent {
    /// What the control channel held, if anything.
    Control(Option<WifiControlCmd>),
    /// An operation on the controller ended: `true` for success.
    Finished(bool),
    /// A sleep ended.
    Slept,
    /// Whether the station is associated.
    Connected(bool),
    /// Whether the controller is started.
    Started(bool),
}

/// Where in its loop the task stands: the action it waits on.
#[derive(Clone, Copy, Debug, PartialEq, Eq, Structural)]
pub enum ConnectPhase {
    /// Waiting for the look at the control channel.
    Polling,
    /// Waiting for the disconnect that a command asked for; `restart` when
    /// the controller is to be stopped after it.
    Disconnecting { restart: bool },
    /// Waiting for the controller to stop.
    Stopping,
    /// Sleeping after a command was carried out.
    Settling { restart: bool },
    /// Waiting to hear whether the station is associated.
    CheckingLink,
    /// Sleeping while the station is associated.
    Resting,
    /// Waiting to hear whether the controller is started.
    CheckingStarted,
    /// Waiting for the configuration to be applied.
    Configuring,
    /// Waiting for the controller to start.
    Starting,
    /// Waiting for the association attempt.
    Connecting,
    /// Sleeping after a failure.
    BackingOff,
    /// The task has ended for want of a credential.
    Exited(MissingCredential),
}

/// The connectivity task's state.
#[derive(Clone, Copy, Debug, PartialEq, Eq, Structural)]
pub struct Connectivity {
    /// Where in its loop the task stands.
    pub phase: ConnectPhase,
    /// How far the station has come.
    pub station: StationState,
}

impl ConnectPhase {
    /// The action that a phase waits on.
    pub open spec fn pending(self) -> ConnectAction {
        match self {
            ConnectPhase::Polling => ConnectAction::PollControl,
            ConnectPhase::Disconnecting { .. } => ConnectAction::Disconnect,
            ConnectPhase::Stopping => ConnectAction::Stop,
            ConnectPhase::Settling { restart } => ConnectAction::Sleep(
                if restart {
                    RESTART_SETTLE_DELAY_MS
                } else {
                    RECONNECT_SETTLE_DELAY_MS
                },
            ),
            ConnectPhase::CheckingLink => ConnectAction::CheckConnected,
            ConnectPhase::Resting => ConnectAction::Sleep(WIFI_POLL_INTERVAL_MS),
            ConnectPhase::CheckingStarted => ConnectAction::CheckStarted,
            ConnectPhase::Configuring => ConnectAction::Configure,
            ConnectPhase::Starting => ConnectAction::Start,
            ConnectPhase::Connecting => ConnectAction::Connect,
            ConnectPhase::BackingOff => ConnectAction::Sleep(WIFI_RETRY_DELAY_MS),
            ConnectPhase::Exited(missing) => ConnectAction::Exit(missing),
        }
    }

    /// Whether `event` is the answer that a phase waits for.
    pub open spec fn answered_by(self, event: ConnectEvent) -> bool {
        match self {
            ConnectPhase::Polling => event is Control,
            ConnectPhase::Disconnecting { .. }
            | ConnectPhase::Stopping
            | ConnectPhase::Configuring
            | ConnectPhase::Starting
            | ConnectPhase::Connecting => event is Finished,
            ConnectPhase::Settling { .. } | ConnectPhase::Resting | ConnectPhase::BackingOff => event
                is Slept,
            ConnectPhase::CheckingLink => event is Connected,
            ConnectPhase::CheckingStarted => event is Started,
            ConnectPhase::Exited(_) => false,
        }
    }
}

impl Connectivity {
    /// The state in which the task begins, given which credentials were built
    /// in: without both it ends at once.
    pub open spec fn initial(has_ssid: bool, has_password: bool) -> Connectivity {
        Connectivity {
            phase: if !has_ssid {
                ConnectPhase::Exited(MissingCredential::Ssid)
            } else if !has_password {
                ConnectPhase::Exited(MissingCredential::Password)
            } else {
                ConnectPhase::Polling
            },
            station: StationState::Idle,
        }
    }

    /// The state that follows when `event` answers the pending action.
    ///
    /// A started controller is asked to associate at once: the step that
    /// learns of the start leaves the station `Connecting`, not `Started`.
    pub open spec fn advance(self, event: ConnectEvent) -> Connectivity {
        match (self.phase, event) {
            (ConnectPhase::Polling, ConnectEvent::Control(Some(cmd))) => Connectivity {
                phase: ConnectPhase::Disconnecting {
                    restart: cmd == WifiControlCmd::RestartController,
                },
                station: StationState::Idle,
            },
            (ConnectPhase::Polling, ConnectEvent::Control(None)) => Connectivity {
                phase: ConnectPhase::CheckingLink,
                station: self.station,
            },
            (ConnectPhase::Disconnecting { restart }, ConnectEvent::Finished(_)) => Connectivity {
                phase: if restart {
                    ConnectPhase::Stopping
                } else {
                    ConnectPhase::Settling { restart: false }
                },
                station: StationState::Idle,
            },
            (ConnectPhase::Stopping, ConnectEvent::Finished(_)) => Connectivity {
                phase: ConnectPhase::Settling { restart: true },
                station: StationState::Idle,
            },
            (ConnectPhase::Settling { .. }, ConnectEvent::Slept) => Connectivity {
                phase: ConnectPhase::CheckingLink,
                station: self.station,
            },
            (ConnectPhase::CheckingLink, ConnectEvent::Connected(true)) => Connectivity {
                phase: ConnectPhase::Resting,
                station: StationState::Connected,
            },
            (ConnectPhase::CheckingLink, ConnectEvent::Connected(false)) => Connectivity {
                phase: ConnectPhase::CheckingStarted,
                station: StationState::Idle,
            },
            (ConnectPhase::Resting, ConnectEvent::Slept) => Connectivity {
                phase: ConnectPhase::Polling,
                station: self.station,
            },
            (ConnectPhase::CheckingStarted, ConnectEvent::Started(true)) => Connectivity {
                phase: ConnectPhase::Connecting,
                station: StationState::Connecting,
            },
            (ConnectPhase::CheckingStarted, ConnectEvent::Started(false)) => Connectivity {
                phase: ConnectPhase::Configuring,
                station: StationState::Idle,
            },
            (ConnectPhase::Configuring, ConnectEvent::Finished(true)) => Connectivity {
                phase: ConnectPhase::Starting,
                station: StationState::Configured,
            },
            (ConnectPhase::Starting, ConnectEvent::Finished(true)) => Connectivity {
                phase: ConnectPhase::Connecting,
                station: StationState::Connecting,
            },
            (ConnectPhase::Connecting, ConnectEvent::Finished(true)) => Connectivity {
                phase: ConnectPhase::Polling,
                station: StationState::Connected,
            },
            (ConnectPhase::Configuring, ConnectEvent::Finished(false))
            | (ConnectPhase::Starting, ConnectEvent::Finished(false))
            | (ConnectPhase::Connecting, ConnectEvent::Finished(false)) => Connectivity {
                phase: ConnectPhase::BackingOff,
                station: StationState::Idle,
            },
            (ConnectPhase::BackingOff, ConnectEvent::Slept) => Connectivity {
                phase: ConnectPhase::Polling,
                station: self.station,
            },
            _ => self,
        }
    }

    /// The state after `event`, and what to do next: the action that the new
    /// phase waits on. An event that does not answer the pending action
    /// changes nothing, and the pending action is asked for again.
    pub open spec fn next(self, event: ConnectEvent) -> (Connectivity, ConnectAction) {
        (self.advance(event), self.advance(event).phase.pending())
    }

    /// Begins the task. Returns its state and first action: a look at the
    /// control channel, or the end of the task where a credential is missing.
    pub fn begin(has_ssid: bool, has_password: bool) -> (started: (Self, ConnectAction))
        ensures
            started.0 == Self::initial(has_ssid, has_password),
            started.1 == started.0.phase.pending(),
            started.1 is Exit <==> !(has_ssid && has_password),
    {
        if !has_ssid {
            let missing = MissingCredential::Ssid;
            (
                Connectivity { phase: ConnectPhase::Exited(missing), station: StationState::Idle },
                ConnectAction::Exit(missing),
            )
        } else if !has_password {
            let missing = MissingCredential::Password;
            (
                Connectivity { phase: ConnectPhase::Exited(missing), station: StationState::Idle },
                ConnectAction::Exit(missing),
            )
        } else {
            (
                Connectivity { phase: ConnectPhase::Polling, station: StationState::Idle },
                ConnectAction::PollControl,
            )
        }
    }

    /// Moves to `phase` with the station at `station`.
    fn enter(&mut self, phase: ConnectPhase, station: StationState)
        ensures
            *final(self) == (Connectivity { phase, station }),
    {
        self.phase = phase;
        self.station = station;
    }

    /// The action that the current phase waits on.
    pub fn pending_action(&self) -> (action: ConnectAction)
        ensures
            action == self.phase.pending(),
    {
        match self.phase {
            ConnectPhase::Polling => ConnectAction::PollControl,
            ConnectPhase::Disconnecting { .. } => ConnectAction::Disconnect,
            ConnectPhase::Stopping => ConnectAction::Stop,
            ConnectPhase::Settling { restart } => {
                if restart {
                    ConnectAction::Sleep(RESTART_SETTLE_DELAY_MS)
                } else {
                    ConnectAction::Sleep(RECONNECT_SETTLE_DELAY_MS)
                }
            },
            ConnectPhase::CheckingLink => ConnectAction::CheckConnected,
            ConnectPhase::Resting => ConnectAction::Sleep(WIFI_POLL_INTERVAL_MS),
            ConnectPhase::CheckingStarted => ConnectAction::CheckStarted,
            ConnectPhase::Configuring => ConnectAction::Configure,
            ConnectPhase::Starting => ConnectAction::Start,
            ConnectPhase::Connecting => ConnectAction::Connect,
            ConnectPhase::BackingOff => ConnectAction::Sleep(WIFI_RETRY_DELAY_MS),
            ConnectPhase::Exited(missing) => ConnectAction::Exit(missing),
        }
    }

    /// Takes the answer to the pending action and says what to do next.
    pub fn step(&mut self, event: ConnectEvent) -> (action: ConnectAction)
        ensures
            (*final(self), action) == old(self).next(event),
    {
        let station = self.station;
        match self.phase {
            ConnectPhase::Polling => match event {
                ConnectEvent::Control(Some(WifiControlCmd::Reconnect)) => self.enter(
                    ConnectPhase::Disconnecting { restart: false },
                    StationState::Idle,
                ),
                ConnectEvent::Control(Some(WifiControlCmd::RestartController)) => self.enter(
                    ConnectPhase::Disconnecting { restart: true },
                    StationState::Idle,
                ),
                ConnectEvent::Control(None) => self.enter(ConnectPhase::CheckingLink, station),
                _ => {},
            },
            ConnectPhase::Disconnecting { restart } => match event {
                ConnectEvent::Finished(_) => {
                    if restart {
                        self.enter(ConnectPhase::Stopping, StationState::Idle)
                    } else {
                        self.enter(ConnectPhase::Settling { restart: false }, StationState::Idle)
                    }
                },
                _ => {},
            },
            ConnectPhase::Stopping => match event {
                ConnectEvent::Finished(_) => self.enter(
                    ConnectPhase::Settling { restart: true },
                    StationState::Idle,
                ),
                _ => {},
            },
            ConnectPhase::Settling { .. } => match event {
                ConnectEvent::Slept => self.enter(ConnectPhase::CheckingLink, station),
                _ => {},
            },
            ConnectPhase::CheckingLink => match event {
                ConnectEvent::Connected(true) => self.enter(
                    ConnectPhase::Resting,
                    StationState::Connected,
                ),
                ConnectEvent::Connected(false) => self.enter(
                    ConnectPhase::CheckingStarted,
                    StationState::Idle,
                ),
                _ => {},
            },
            ConnectPhase::Resting | ConnectPhase::BackingOff => match event {
                ConnectEvent::Slept => self.enter(ConnectPhase::Polling, station),
                _ => {},
            },
            ConnectPhase::CheckingStarted => match event {
                ConnectEvent::Started(true) => self.enter(
                    ConnectPhase::Connecting,
                    StationState::Connecting,
                ),
                ConnectEvent::Started(false) => self.enter(
                    ConnectPhase::Configuring,
                    StationState::Idle,
                ),
                _ => {},
            },
            ConnectPhase::Configuring => match event {
                ConnectEvent::Finished(true) => self.enter(
                    ConnectPhase::Starting,
                    StationState::Configured,
                ),
                ConnectEvent::Finished(false) => self.enter(
                    ConnectPhase::BackingOff,
                    StationState::Idle,
                ),
                _ => {},
            },
            ConnectPhase::Starting => match event {
                ConnectEvent::Finished(true) => self.enter(
                    ConnectPhase::Connecting,
                    StationState::Connecting,
                ),
                ConnectEvent::Finished(false) => self.enter(
                    ConnectPhase::BackingOff,
                    StationState::Idle,
                ),
                _ => {},
            },
            ConnectPhase::Connecting => match event {
                ConnectEvent::Finished(true) => self.enter(
                    ConnectPhase::Polling,
                    StationState::Connected,
                ),
                ConnectEvent::Finished(false) => self.enter(
                    ConnectPhase::BackingOff,
                    StationState::Idle,
                ),
                _ => {},
            },
            ConnectPhase::Exited(_) => {},
        }
        self.pending_action()
    }
}

/// An event that does not answer the pending action is ignored; one that does
/// moves the task on, except out of the end for want of a credential.
pub proof fn lemma_unanswered_is_ignored(task: Connectivity, event: ConnectEvent)
    requires
        !task.phase.answered_by(event),
    ensures
        task.next(event) == (task, task.phase.pending()),
{
}

/// A failed configure, start or connect sends the station back to idle and
/// the task to sleep for the retry delay before it looks at the control
/// channel again.
pub proof fn lemma_failure_backs_off(task: Connectivity)
    requires
        task.phase == ConnectPhase::Configuring || task.phase == ConnectPhase::Starting
            || task.phase == ConnectPhase::Connecting,
    ensures
        ({
            let (failed, pause) = task.next(ConnectEvent::Finished(false));
            let (resumed, then) = failed.next(ConnectEvent::Slept);
            &&& failed.station == StationState::Idle
            &&& pause == ConnectAction::Sleep(WIFI_RETRY_DELAY_MS)
            &&& resumed.phase == ConnectPhase::Polling
            &&& then == ConnectAction::PollControl
        }),
{
}

/// A command found on the control channel forces the station to idle,
/// whatever it was, and is carried out whether or not the controller
/// reports errors: a reconnect disconnects and settles, a restart disconnects,
/// stops and settles; then the task goes on to bring the station up.
pub proof fn lemma_command_forces_idle(
    task: Connectivity,
    cmd: WifiControlCmd,
    disconnected: bool,
    stopped: bool,
)
    requires
        task.phase == ConnectPhase::Polling,
    ensures
        ({
            let (a, first) = task.next(ConnectEvent::Control(Some(cmd)));
            let (b, second) = a.next(ConnectEvent::Finished(disconnected));
            let (c, third) = b.next(ConnectEvent::Finished(stopped));
            &&& a.station == StationState::Idle
            &&& first == ConnectAction::Disconnect
            &&& b.station == StationState::Idle
            &&& cmd == WifiControlCmd::Reconnect ==> {
                &&& second == ConnectAction::Sleep(RECONNECT_SETTLE_DELAY_MS)
                &&& b.next(ConnectEvent::Slept).1 == ConnectAction::CheckConnected
            }
            &&& cmd == WifiControlCmd::RestartController ==> {
                &&& second == ConnectAction::Stop
                &&& third == ConnectAction::Sleep(RESTART_SETTLE_DELAY_MS)
                &&& c.station == StationState::Idle
                &&& c.next(ConnectEvent::Slept).1 == ConnectAction::CheckConnected
            }
        }),
{
}

/// No step leaves the station at `Started`: the start of the controller and
/// the request to associate fall into one step.
pub proof fn lemma_started_is_passed(task: Connectivity, event: ConnectEvent)
    requires
        task.station != StationState::Started,
    ensures
        task.advance(event).station != StationState::Started,
        Connectivity::initial(true, true).station != StationState::Started,
        task.phase == ConnectPhase::Starting ==> task.next(ConnectEvent::Finished(true)) == (
            Connectivity { phase: ConnectPhase::Connecting, station: StationState::Connecting },
            ConnectAction::Connect,
        ),
        task.phase == ConnectPhase::CheckingStarted ==> task.next(ConnectEvent::Started(true))
            == (
            Connectivity { phase: ConnectPhase::Connecting, station: StationState::Connecting },
            ConnectAction::Connect,
        ),
{
}

/// From an idle controller the station comes up in order: configured, then
/// started and at once connecting, then connected, after which the task rests
/// for the poll interval while the association holds.
pub proof fn lemma_bring_up(task: Connectivity)
    requires
        task.phase == ConnectPhase::CheckingLink,
    ensures
        ({
            let (a, check) = task.next(ConnectEvent::Connected(false));
            let (b, configure) = a.next(ConnectEvent::Started(false));
            let (c, start) = b.next(ConnectEvent::Finished(true));
            let (d, connect) = c.next(ConnectEvent::Finished(true));
            let (e, poll) = d.next(ConnectEvent::Finished(true));
            let (f, look) = e.next(ConnectEvent::Control(None));
            let (g, rest) = f.next(ConnectEvent::Connected(true));
            &&& check == ConnectAction::CheckStarted
            &&& configure == ConnectAction::Configure
            &&& b.station == StationState::Idle
            &&& start == ConnectAction::Start
            &&& c.station == StationState::Configured
            &&& connect == ConnectAction::Connect
            &&& d.station == StationState::Connecting
            &&& poll == ConnectAction::PollControl
            &&& e.station == StationState::Connected
            &&& look == ConnectAction::CheckConnected
            &&& rest == ConnectAction::Sleep(WIFI_POLL_INTERVAL_MS)
            &&& g.station == StationState::Connected
        }),
{
}

} // verus!
