//! The radio manager: the one owner of the sniffer, switching promiscuous
//! mode on command.

use vstd::prelude::*;

verus! {

/// Commands from the uploader to the radio manager.
#[derive(Clone, Copy, Debug, PartialEq, Eq, Structural)]
pub enum WifiCmd {
    /// Enable promiscuous mode and capture probe requests.
    StartSniffing,
    /// Disable promiscuous mode so that the station can use the radio.
    StopSniffing,
}

/// What the single radio is given over to.
#[derive(Clone, Copy, Debug, PartialEq, Eq, Structural)]
pub enum WifiEvt {
    /// Promiscuous mode is off: the radio is free for station traffic.
    Online,
    /// Promiscuous mode is on: the radio captures frames.
    Sniffing,
}

/// What reaches the radio manager.
#[derive(Clone, Copy, Debug, PartialEq, Eq, Structural)]
pub enum RadioEvent {
    /// A command arrived on the command channel.
    Command(WifiCmd),
    /// The driver answered the last mode switch: `true` for success.
    Switched(bool),
}

/// What the radio manager wants done next.
#[derive(Clone, Copy, Debug, PartialEq, Eq, Structural)]
pub enum RadioAction {
    /// Wait for the next command.
    AwaitCommand,
    /// Ask the driver to switch promiscuous mode on (`true`) or off.
    SetPromiscuous(bool),
    /// Install the capture callback again, then wait for the next command.
    InstallCallback,
    /// Report that the driver refused the command, then wait for the next.
    ReportFailure(WifiCmd),
}

/// The radio manager's state: the mode it last saw the driver accept, and the
/// command whose outcome it is waiting for.
#[derive(Clone, Copy, Debug, PartialEq, Eq, Structural)]
pub struct RadioManager {
    /// Whether promiscuous mode is on, as far as the driver confirmed.
    pub sniffing: bool,
    /// The command handed to the driver and not yet answered.
    pub pending: Option<WifiCmd>,
}

impl RadioManager {
    /// The state after `event`, and what to do next.
    ///
    /// A command is handed to the driver as a mode switch. A confirmed switch
    /// becomes the new mode, and a confirmed start installs the callback
    /// again; a refused switch is reported and changes nothing. An answer
    /// that no command waits for is ignored.
    pub open spec fn next(self, event: RadioEvent) -> (RadioManager, RadioAction) {
        match event {
            RadioEvent::Command(cmd) => (
                RadioManager { sniffing: self.sniffing, pending: Some(cmd) },
                RadioAction::SetPromiscuous(cmd == WifiCmd::StartSniffing),
            ),
            RadioEvent::Switched(ok) => match self.pending {
                None => (self, RadioAction::AwaitCommand),
                Some(cmd) => if !ok {
                    (
                        RadioManager { sniffing: self.sniffing, pending: None },
                        RadioAction::ReportFailure(cmd),
                    )
                } else if cmd == WifiCmd::StartSniffing {
                    (RadioManager { sniffing: true, pending: None }, RadioAction::InstallCallback)
                } else {
                    (RadioManager { sniffing: false, pending: None }, RadioAction::AwaitCommand)
                },
            },
        }
    }

    /// What the radio is given over to in this state.
    pub open spec fn mode_of(self) -> WifiEvt {
        if self.sniffing {
            WifiEvt::Sniffing
        } else {
            WifiEvt::Online
        }
    }

    /// A manager whose radio is not sniffing and that waits for a command.
    pub fn new() -> (manager: Self)
        ensures
            manager == (RadioManager { sniffing: false, pending: None }),
    {
        RadioManager { sniffing: false, pending: None }
    }

    /// What the radio is given over to.
    pub fn mode(&self) -> (mode: WifiEvt)
        ensures
            mode == self.mode_of(),
    {
        if self.sniffing {
            WifiEvt::Sniffing
        } else {
            WifiEvt::Online
        }
    }

    /// Takes an event and says what to do next.
    pub fn step(&mut self, event: RadioEvent) -> (action: RadioAction)
        ensures
            (*final(self), action) == old(self).next(event),
    {
        match event {
            RadioEvent::Command(cmd) => {
                self.pending = Some(cmd);
                match cmd {
                    WifiCmd::StartSniffing => RadioAction::SetPromiscuous(true),
                    WifiCmd::StopSniffing => RadioAction::SetPromiscuous(false),
                }
            },
            RadioEvent::Switched(ok) => {
                let answered = self.pending;
                self.pending = None;
                match answered {
                    None => RadioAction::AwaitCommand,
                    Some(cmd) => {
                        if !ok {
                            RadioAction::ReportFailure(cmd)
                        } else {
                            match cmd {
                                WifiCmd::StartSniffing => {
                                    self.sniffing = true;
                                    RadioAction::InstallCallback
                                },
                                WifiCmd::StopSniffing => {
                                    self.sniffing = false;
                                    RadioAction::AwaitCommand
                                },
                            }
                        }
                    },
                }
            },
        }
    }
}

/// A command that the driver accepts decides the mode, whatever it was; one
/// that the driver refuses leaves the mode as it was. Either way the manager
/// is back waiting for a command: driver errors are never fatal.
pub proof fn lemma_command_round(manager: RadioManager, cmd: WifiCmd, ok: bool)
    ensures
        ({
            let (asked, switch) = manager.next(RadioEvent::Command(cmd));
            let (done, after) = asked.next(RadioEvent::Switched(ok));
            &&& switch == RadioAction::SetPromiscuous(cmd == WifiCmd::StartSniffing)
            &&& done.pending is None
            &&& ok ==> done.sniffing == (cmd == WifiCmd::StartSniffing)
            &&& !ok ==> done.sniffing == manager.sniffing
            &&& after == RadioAction::InstallCallback <==> ok && cmd == WifiCmd::StartSniffing
            &&& after == RadioAction::ReportFailure(cmd) <==> !ok
        }),
{
}

} // verus!
